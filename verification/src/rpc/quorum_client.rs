//! The quorum logic of the RPC client: provider configuration, the grouping
//! of provider responses and the weighted decision over them. The requests
//! themselves are sent by the application. Weights are in thousandths of a
//! unit, ratios in thousandths.

use vstd::prelude::*;
use vstd::string::StringExecFns;

use crate::error::ProtocolError;
use crate::ranking::rank_desc;

verus! {

/// RPC provider configuration.
#[derive(Clone, Debug)]
pub struct RpcProvider {
    /// Provider URL.
    pub url: String,
    /// Provider weight, in thousandths.
    pub weight: u64,
    /// Provider timeout in milliseconds.
    pub timeout_ms: u64,
}

impl RpcProvider {
    /// A provider of weight one (1000) and a 5 second timeout.
    pub fn new(url: String) -> (p: RpcProvider)
        ensures
            p.url@ == url@,
            p.weight == 1000,
            p.timeout_ms == 5000,
    {
        RpcProvider { url, weight: 1000, timeout_ms: 5000 }
    }

    /// Sets the weight.
    pub fn with_weight(self, weight: u64) -> (p: RpcProvider)
        ensures
            p.url == self.url,
            p.weight == weight,
            p.timeout_ms == self.timeout_ms,
    {
        RpcProvider { weight, ..self }
    }

    /// Sets the timeout.
    pub fn with_timeout(self, timeout_ms: u64) -> (p: RpcProvider)
        ensures
            p.url == self.url,
            p.weight == self.weight,
            p.timeout_ms == timeout_ms,
    {
        RpcProvider { timeout_ms, ..self }
    }
}

/// Quorum configuration.
#[derive(Clone, Debug)]
pub struct QuorumConfig {
    /// Minimum number of providers that must agree.
    pub min_quorum: usize,
    /// Minimum share of the total weight that must agree, in thousandths.
    pub min_percentage: u64,
    /// Maximum number of providers to query.
    pub max_providers: usize,
}

impl QuorumConfig {
    /// A configuration querying at most five providers.
    pub fn new(min_quorum: usize, min_percentage: u64) -> (c: QuorumConfig)
        ensures
            c.min_quorum == min_quorum,
            c.min_percentage == min_percentage,
            c.max_providers == 5,
    {
        QuorumConfig { min_quorum, min_percentage, max_providers: 5 }
    }

    /// Sets the maximum number of providers.
    pub fn with_max_providers(self, max_providers: usize) -> (c: QuorumConfig)
        ensures
            c.min_quorum == self.min_quorum,
            c.min_percentage == self.min_percentage,
            c.max_providers == max_providers,
    {
        QuorumConfig { max_providers, ..self }
    }
}

impl Default for QuorumConfig {
    fn default() -> (c: QuorumConfig)
        ensures
            c.min_quorum == 2,
            c.min_percentage == 510,
            c.max_providers == 5,
    {
        QuorumConfig::new(2, 510)
    }
}

/// RPC response from a provider.
#[derive(Clone, Debug)]
pub struct RpcResponse {
    /// Provider that returned this response.
    pub provider: String,
    /// Response data.
    pub data: Vec<u8>,
    /// Whether the response was successful.
    pub success: bool,
    /// Error message if failed.
    pub error: Option<String>,
    /// Response timestamp (milliseconds since epoch).
    pub timestamp_ms: u64,
    /// Response latency in milliseconds.
    pub latency_ms: u64,
}

/// The response that a provider's parsed JSON-RPC reply comes to: an error
/// in the reply wins, with its message; else a result, given as its
/// serialised bytes or the serialisation's error, succeeds with those
/// bytes; else the reply carried nothing usable.
pub fn reply_response(
    provider: String,
    error: Option<String>,
    result: Option<Result<Vec<u8>, String>>,
    timestamp_ms: u64,
    latency_ms: u64,
) -> (r: RpcResponse)
    ensures
        r.provider == provider,
        r.timestamp_ms == timestamp_ms,
        r.latency_ms == latency_ms,
        error is Some ==> !r.success && r.data@.len() == 0 && (r.error matches Some(m) && m@
            == error->0@),
        error is None && (result matches Some(Ok(d))) ==> r.success && r.data@ == result->0->Ok_0@
            && r.error is None,
        error is None && (result matches Some(Err(e))) ==> !r.success && r.data@.len() == 0 && (
        r.error matches Some(m) && m@ == "Failed to serialize result: "@ + result->0->Err_0@),
        error is None && result is None ==> !r.success && r.data@.len() == 0 && (r.error matches Some(
            m,
        ) && m@ == "No result in RPC response"@),
{
    let (success, data, message) = match error {
        Some(m) => (false, Vec::new(), Some(m)),
        None => match result {
            Some(Ok(d)) => (true, d, None),
            Some(Err(e)) => {
                let mut m = String::from_str("Failed to serialize result: ");
                m.append(e.as_str());
                (false, Vec::new(), Some(m))
            },
            None => (false, Vec::new(), Some(String::from_str("No result in RPC response"))),
        },
    };
    RpcResponse { provider, data, success, error: message, timestamp_ms, latency_ms }
}

/// What a JSON-RPC reply body holds: its error message and its result,
/// serialised, or why the body could not be parsed.
#[derive(Debug)]
pub enum RpcEnvelope {
    /// The body is not JSON; the parser's message.
    Unparsable(String),
    /// The body parsed.
    Parsed {
        /// The `message` of its `error`, if it has one.
        error: Option<String>,
        /// Its `result`, if it has one that is not null: the serialised
        /// value, or the serialiser's message.
        result: Option<Result<Vec<u8>, String>>,
    },
}

impl View for RpcEnvelope {
    type V = Result<(Option<Seq<char>>, Option<Result<Seq<u8>, Seq<char>>>), Seq<char>>;

    open spec fn view(&self) -> Result<(Option<Seq<char>>, Option<Result<Seq<u8>, Seq<char>>>), Seq<char>> {
        match self {
            RpcEnvelope::Unparsable(m) => Err(m@),
            RpcEnvelope::Parsed { error, result } => Ok(
                (
                    match error {
                        Some(m) => Some(m@),
                        None => None,
                    },
                    match result {
                        Some(Ok(d)) => Some(Ok(d@)),
                        Some(Err(m)) => Some(Err(m@)),
                        None => None,
                    },
                ),
            ),
        }
    }
}

/// What `serde_json` makes of a JSON-RPC reply body.
pub uninterp spec fn rpc_envelope(body: Seq<char>) -> Result<
    (Option<Seq<char>>, Option<Result<Seq<u8>, Seq<char>>>),
    Seq<char>,
>;

/// Parses a reply body with `serde_json::from_str` into a
/// `serde_json::Value`, and takes the string `message` of its `error` and
/// its non-null `result`, serialised with `serde_json::to_vec`; a parse or
/// serialisation error gives the error's text.
///
/// Trusted: the contract names the outcome `rpc_envelope` of the body and
/// says no more of what `serde_json` parses.
#[verifier::external_body]
fn parse_rpc_envelope(body: &str) -> (r: RpcEnvelope)
    ensures
        r@ == rpc_envelope(body@),
{
    match serde_json::from_str::<serde_json::Value>(body) {
        Ok(v) => RpcEnvelope::Parsed {
            error: v.get("error").and_then(|e| e.get("message")).and_then(|m| m.as_str()).map(|m| m.to_string()),
            result: v.get("result").filter(|r| !r.is_null()).map(|r| serde_json::to_vec(r).map_err(|e| e.to_string())),
        },
        Err(e) => RpcEnvelope::Unparsable(e.to_string()),
    }
}

/// Whether an HTTP status is a success (2xx).
pub fn status_is_success(status: u16) -> (b: bool)
    ensures
        b == (200 <= status <= 299),
{
    200 <= status && status <= 299
}

/// The response that a provider's HTTP reply comes to, from its status
/// code, the status as displayed (`404 Not Found`) and its body: a status
/// other than 2xx fails with the status; a body that does not parse fails
/// with the parser's message; a parsed body gives what `reply_response`
/// makes of its error and result.
pub fn response_from_body(
    provider: String,
    status: u16,
    status_text: &str,
    body: &str,
    timestamp_ms: u64,
    latency_ms: u64,
) -> (r: RpcResponse)
    ensures
        r.provider == provider,
        r.timestamp_ms == timestamp_ms,
        r.latency_ms == latency_ms,
        !(200 <= status <= 299) ==> !r.success && r.data@.len() == 0 && (r.error matches Some(m) && m@
            == "HTTP "@ + crate::text::decimal(status as nat) + ": "@ + status_text@),
        200 <= status <= 299 ==> match rpc_envelope(body@) {
            Err(e) => !r.success && r.data@.len() == 0 && (r.error matches Some(m) && m@
                == "Failed to parse RPC response: "@ + e),
            Ok((Some(msg), _)) => !r.success && r.data@.len() == 0 && (r.error matches Some(m) && m@
                == msg),
            Ok((None, Some(Ok(d)))) => r.success && r.data@ == d && r.error is None,
            Ok((None, Some(Err(x)))) => !r.success && r.data@.len() == 0 && (r.error matches Some(m)
                && m@ == "Failed to serialize result: "@ + x),
            Ok((None, None)) => !r.success && r.data@.len() == 0 && (r.error matches Some(m) && m@
                == "No result in RPC response"@),
        },
{
    if !status_is_success(status) {
        let mut m = String::from_str("HTTP ");
        crate::text::push_decimal(&mut m, status as u64);
        m.append(": ");
        m.append(status_text);
        return RpcResponse { provider, data: Vec::new(), success: false, error: Some(m), timestamp_ms, latency_ms };
    }
    match parse_rpc_envelope(body) {
        RpcEnvelope::Unparsable(e) => {
            let mut m = String::from_str("Failed to parse RPC response: ");
            m.append(e.as_str());
            RpcResponse { provider, data: Vec::new(), success: false, error: Some(m), timestamp_ms, latency_ms }
        },
        RpcEnvelope::Parsed { error, result } => reply_response(provider, error, result, timestamp_ms, latency_ms),
    }
}

/// Responses that carried the same data.
#[derive(Clone, Debug)]
pub struct ResponseGroup {
    /// The shared data.
    pub data: Vec<u8>,
    /// Summed weight of the responding providers.
    pub weight: u64,
    /// Number of responses.
    pub count: usize,
    /// The responding providers, in response order.
    pub providers: Vec<String>,
}

/// A response group as plain values: data, weight, count, providers.
pub type GroupView = (Seq<u8>, nat, nat, Seq<Seq<char>>);

impl View for ResponseGroup {
    type V = GroupView;

    open spec fn view(&self) -> GroupView {
        (self.data@, self.weight as nat, self.count as nat, self.providers@.map_values(|s: String| s@))
    }
}

/// Result of a quorum decision over provider responses.
#[derive(Clone, Debug)]
pub enum QuorumDecision {
    /// One response carries the quorum.
    Consensus {
        /// The agreed data.
        data: Vec<u8>,
        /// Total weight supporting it.
        weight: u64,
        /// The supporting providers.
        supporting_providers: Vec<String>,
    },
    /// No response carries the quorum.
    NoConsensus {
        /// The groups of responses, heaviest first.
        groups: Vec<ResponseGroup>,
        /// Total weight of the configured providers.
        total_weight: u64,
    },
}

/// A decision as plain values.
pub enum DecisionView {
    /// Agreed data, its weight, its providers.
    Consensus(Seq<u8>, nat, Seq<Seq<char>>),
    /// The groups, heaviest first, and the total weight.
    NoConsensus(Seq<GroupView>, nat),
}

impl QuorumDecision {
    /// The decision as plain values.
    pub open spec fn view_decision(self) -> DecisionView {
        match self {
            QuorumDecision::Consensus { data, weight, supporting_providers } => DecisionView::Consensus(
                data@,
                weight as nat,
                supporting_providers@.map_values(|s: String| s@),
            ),
            QuorumDecision::NoConsensus { groups, total_weight } => DecisionView::NoConsensus(
                groups@.map_values(|g: ResponseGroup| g@),
                total_weight as nat,
            ),
        }
    }
}

/// The weight configured for `url`: that of the last provider with this
/// URL, or one (1000) for an unknown provider.
pub open spec fn configured_weight(providers: Seq<RpcProvider>, url: Seq<char>) -> nat
    decreases providers.len(),
{
    if providers.len() == 0 {
        1000
    } else if providers.last().url@ == url {
        providers.last().weight as nat
    } else {
        configured_weight(providers.drop_last(), url)
    }
}

/// The summed weight of all configured providers.
pub open spec fn total_provider_weight(providers: Seq<RpcProvider>) -> nat
    decreases providers.len(),
{
    if providers.len() == 0 {
        0
    } else {
        total_provider_weight(providers.drop_last()) + providers.last().weight as nat
    }
}

/// The summed weight of the successful responses.
pub open spec fn response_weight(providers: Seq<RpcProvider>, resps: Seq<RpcResponse>) -> nat
    decreases resps.len(),
{
    if resps.len() == 0 {
        0
    } else {
        response_weight(providers, resps.drop_last()) + if resps.last().success {
            configured_weight(providers, resps.last().provider@)
        } else {
            0
        }
    }
}

/// The position of the first group holding `data`, or the length when none does.
pub open spec fn group_index(groups: Seq<GroupView>, data: Seq<u8>) -> int
    decreases groups.len(),
{
    if groups.len() == 0 {
        0
    } else if groups[0].0 == data {
        0
    } else {
        1 + group_index(groups.subrange(1, groups.len() as int), data)
    }
}

/// The groups of the successful responses, in order of first appearance.
pub open spec fn response_groups(providers: Seq<RpcProvider>, resps: Seq<RpcResponse>) -> Seq<
    GroupView,
>
    decreases resps.len(),
{
    if resps.len() == 0 {
        Seq::empty()
    } else {
        let gs = response_groups(providers, resps.drop_last());
        let r = resps.last();
        if !r.success {
            gs
        } else {
            let w = configured_weight(providers, r.provider@);
            let i = group_index(gs, r.data@);
            if i < gs.len() {
                gs.update(i, (gs[i].0, gs[i].1 + w, gs[i].2 + 1, gs[i].3.push(r.provider@)))
            } else {
                gs.push((r.data@, w, 1, seq![r.provider@]))
            }
        }
    }
}

/// The weights of a list of groups.
pub open spec fn group_weights(gs: Seq<GroupView>) -> Seq<u128> {
    gs.map_values(|g: GroupView| g.1 as u128)
}

/// The groups ordered heaviest first, stably.
pub open spec fn ranked_groups(gs: Seq<GroupView>) -> Seq<GroupView> {
    rank_desc(group_weights(gs), gs.len()).map_values(|i: int| gs[i])
}

/// The decision over the responses.
pub open spec fn quorum_decision_spec(
    providers: Seq<RpcProvider>,
    config: QuorumConfig,
    resps: Seq<RpcResponse>,
) -> DecisionView {
    let total = total_provider_weight(providers);
    let ranked = ranked_groups(response_groups(providers, resps));
    if ranked.len() == 0 {
        DecisionView::NoConsensus(Seq::empty(), total)
    } else {
        let best = ranked[0];
        if best.1 * 1000 >= config.min_percentage * total && best.2 >= config.min_quorum {
            DecisionView::Consensus(best.0, best.1, best.3)
        } else {
            DecisionView::NoConsensus(ranked, total)
        }
    }
}

/// Fault injection modes for Byzantine RPC testing.
#[derive(Debug, Clone, Copy, PartialEq, Eq, Structural)]
pub enum FaultyRpcMode {
    /// A valid-looking but cryptographically invalid proof.
    InvalidProof,
    /// Finality claimed for a block that is not final.
    WrongFinality,
    /// Partial or truncated state data.
    PartialState,
    /// Empty results for all queries.
    EmptyResult,
    /// No response.
    Timeout,
    /// A reorganised chain view.
    Reorg,
    /// A receipt with wrong log data.
    FakeReceipt,
}

impl FaultyRpcMode {
    /// A human-readable description of this fault mode.
    pub fn description(&self) -> (d: &'static str)
        ensures
            d@ == match *self {
                FaultyRpcMode::InvalidProof => "invalid proof"@,
                FaultyRpcMode::WrongFinality => "wrong finality"@,
                FaultyRpcMode::PartialState => "partial state"@,
                FaultyRpcMode::EmptyResult => "empty result"@,
                FaultyRpcMode::Timeout => "timeout"@,
                FaultyRpcMode::Reorg => "reorg"@,
                FaultyRpcMode::FakeReceipt => "fake receipt"@,
            },
    {
        match self {
            FaultyRpcMode::InvalidProof => "invalid proof",
            FaultyRpcMode::WrongFinality => "wrong finality",
            FaultyRpcMode::PartialState => "partial state",
            FaultyRpcMode::EmptyResult => "empty result",
            FaultyRpcMode::Timeout => "timeout",
            FaultyRpcMode::Reorg => "reorg",
            FaultyRpcMode::FakeReceipt => "fake receipt",
        }
    }
}

proof fn lemma_group_index_bounds(groups: Seq<GroupView>, data: Seq<u8>)
    ensures
        0 <= group_index(groups, data) <= groups.len(),
        group_index(groups, data) < groups.len() ==> groups[group_index(groups, data)].0 == data,
        forall|j: int| 0 <= j < group_index(groups, data) ==> (#[trigger] groups[j]).0 != data,
    decreases groups.len(),
{
    if groups.len() > 0 && groups[0].0 != data {
        let t = groups.subrange(1, groups.len() as int);
        lemma_group_index_bounds(t, data);
        assert forall|j: int| 0 <= j < group_index(groups, data) implies (#[trigger] groups[j]).0
            != data by {
            if j > 0 {
                assert(groups[j] == t[j - 1]);
            }
        }
    }
}

proof fn lemma_group_index_is_first(groups: Seq<GroupView>, data: Seq<u8>, k: int)
    requires
        0 <= k <= groups.len(),
        k < groups.len() ==> groups[k].0 == data,
        forall|j: int| 0 <= j < k ==> (#[trigger] groups[j]).0 != data,
    ensures
        group_index(groups, data) == k,
    decreases groups.len(),
{
    if groups.len() > 0 && k > 0 {
        let t = groups.subrange(1, groups.len() as int);
        assert forall|j: int| 0 <= j < k - 1 implies (#[trigger] t[j]).0 != data by {
            assert(t[j] == groups[j + 1]);
        }
        if k - 1 < t.len() {
            assert(t[k - 1] == groups[k]);
        }
        lemma_group_index_is_first(t, data, k - 1);
    }
}

/// Whether provider `p` answered successfully with `data`.
pub open spec fn answered(resps: Seq<RpcResponse>, p: Seq<char>, data: Seq<u8>) -> bool {
    exists|i: int| 0 <= i < resps.len() && #[trigger] resps[i].success && resps[i].provider@ == p && resps[i].data@ == data
}

proof fn lemma_answered_extends(resps: Seq<RpcResponse>, r: RpcResponse, p: Seq<char>, data: Seq<u8>)
    requires
        answered(resps, p, data),
    ensures
        answered(resps.push(r), p, data),
{
    let i = choose|i: int| 0 <= i < resps.len() && #[trigger] resps[i].success && resps[i].provider@ == p && resps[i].data@ == data;
    assert(resps.push(r)[i] == resps[i]);
}

/// Every group counts one response per provider it lists, and each
/// provider it lists answered successfully with its data.
proof fn lemma_groups_hold_answers(providers: Seq<RpcProvider>, resps: Seq<RpcResponse>)
    ensures
        forall|k: int|
            0 <= k < response_groups(providers, resps).len() ==> {
                let g = #[trigger] response_groups(providers, resps)[k];
                &&& g.2 == g.3.len()
                &&& forall|j: int| 0 <= j < g.3.len() ==> answered(resps, #[trigger] g.3[j], g.0)
            },
    decreases resps.len(),
{
    if resps.len() > 0 {
        let pre = resps.drop_last();
        let r = resps.last();
        lemma_groups_hold_answers(providers, pre);
        let gs = response_groups(providers, pre);
        assert(resps == pre.push(r));
        assert forall|k: int| 0 <= k < gs.len() implies forall|j: int| 0 <= j < (#[trigger] gs[k]).3.len() ==> answered(resps, #[trigger] gs[k].3[j], gs[k].0) by {
            assert forall|j: int| 0 <= j < gs[k].3.len() implies answered(resps, #[trigger] gs[k].3[j], gs[k].0) by {
                lemma_answered_extends(pre, r, gs[k].3[j], gs[k].0);
            }
        }
        if r.success {
            assert(resps[resps.len() - 1] == r);
            assert(answered(resps, r.provider@, r.data@));
            lemma_group_index_bounds(gs, r.data@);
        }
    }
}

/// A consensus is carried by at least `min_quorum` providers that each
/// answered successfully with the agreed data, and by at least
/// `min_percentage` thousandths of the total configured weight.
pub proof fn lemma_consensus_meets_quorum(
    providers: Seq<RpcProvider>,
    config: QuorumConfig,
    resps: Seq<RpcResponse>,
)
    requires
        quorum_decision_spec(providers, config, resps) is Consensus,
    ensures
        match quorum_decision_spec(providers, config, resps) {
            DecisionView::Consensus(data, weight, supporters) => {
                &&& supporters.len() >= config.min_quorum
                &&& weight * 1000 >= config.min_percentage * total_provider_weight(providers)
                &&& forall|j: int| 0 <= j < supporters.len() ==> answered(resps, #[trigger] supporters[j], data)
            },
            _ => false,
        },
{
    let gs = response_groups(providers, resps);
    lemma_groups_hold_answers(providers, resps);
    crate::ranking::lemma_rank_desc_in_range(group_weights(gs), gs.len());
    let order = rank_desc(group_weights(gs), gs.len());
    let ranked = ranked_groups(gs);
    assert(ranked[0] == gs[order[0]]);
    assert(0 <= order[0] < gs.len());
}

/// A copy of a string.
pub fn copy_string(s: &String) -> (c: String)
    ensures
        c@ == s@,
{
    String::from_str(s.as_str())
}

/// A copy of a list of strings.
pub fn copy_strings(v: &Vec<String>) -> (c: Vec<String>)
    ensures
        c@.map_values(|s: String| s@) == v@.map_values(|s: String| s@),
{
    let mut c: Vec<String> = Vec::new();
    let mut i: usize = 0;
    while i < v.len()
        invariant
            i <= v@.len(),
            c@.map_values(|s: String| s@) == v@.subrange(0, i as int).map_values(|s: String| s@),
        decreases v@.len() - i,
    {
        let ghost prev = c@;
        let x = copy_string(&v[i]);
        c.push(x);
        proof {
            assert(c@ == prev.push(x));
            assert(v@.subrange(0, i + 1) =~= v@.subrange(0, i as int).push(v@[i as int]));
            assert(c@.map_values(|s: String| s@) =~= prev.map_values(|s: String| s@).push(x@));
        }
        i = i + 1;
    }
    assert(v@.subrange(0, i as int) =~= v@);
    c
}

impl ResponseGroup {
    /// A copy of the group.
    pub fn duplicate(&self) -> (g: ResponseGroup)
        ensures
            g@ == self@,
    {
        ResponseGroup {
            data: crate::bytes::to_byte_vec(self.data.as_slice()),
            weight: self.weight,
            count: self.count,
            providers: copy_strings(&self.providers),
        }
    }
}

/// The quorum client's configuration: its providers and quorum rule.
#[derive(Clone, Debug)]
pub struct QuorumClient {
    /// RPC providers.
    pub providers: Vec<RpcProvider>,
    /// Quorum rule.
    pub config: QuorumConfig,
}

impl QuorumClient {
    /// A client over the given providers.
    pub fn new(providers: Vec<RpcProvider>, config: QuorumConfig) -> (c: QuorumClient)
        ensures
            c.providers@ == providers@,
            c.config == config,
    {
        QuorumClient { providers, config }
    }

    /// A client with the default quorum rule.
    pub fn with_defaults(providers: Vec<RpcProvider>) -> (c: QuorumClient)
        ensures
            c.providers@ == providers@,
            c.config.min_quorum == 2,
            c.config.min_percentage == 510,
            c.config.max_providers == 5,
    {
        QuorumClient::new(providers, QuorumConfig::default())
    }

    /// The number of providers.
    pub fn provider_count(&self) -> (n: usize)
        ensures
            n == self.providers@.len(),
    {
        self.providers.len()
    }

    /// Adds a provider.
    pub fn add_provider(&mut self, provider: RpcProvider)
        ensures
            final(self).providers@ == old(self).providers@.push(provider),
            final(self).config == old(self).config,
    {
        self.providers.push(provider);
    }

    /// Removes every provider with the given URL.
    pub fn remove_provider(&mut self, url: &str)
        ensures
            final(self).providers@ == providers_without(old(self).providers@, url@),
            final(self).config == old(self).config,
    {
        let mut rest: Vec<RpcProvider> = Vec::new();
        std::mem::swap(&mut rest, &mut self.providers);
        let ghost all = rest@;
        let n = rest.len();
        assert(all.len() == n);
        let target = String::from_str(url);
        let mut kept: Vec<RpcProvider> = Vec::new();
        let mut i: usize = 0;
        while rest.len() > 0
            invariant
                i <= all.len(),
                all.len() <= usize::MAX,
                rest@ == all.subrange(i as int, all.len() as int),
                kept@ == providers_without(all.subrange(0, i as int), url@),
                target@ == url@,
            decreases rest@.len(),
        {
            assert(i < all.len());
            let p = rest.remove(0);
            proof {
                assert(p == all[i as int]);
                assert(all.subrange(0, i + 1).drop_last() =~= all.subrange(0, i as int));
            }
            if p.url != target {
                kept.push(p);
            }
            i = i + 1;
            assert(rest@ =~= all.subrange(i as int, all.len() as int));
        }
        assert(all.subrange(0, i as int) =~= all);
        self.providers = kept;
    }
}

/// The providers whose URL differs from `url`, in order.
pub open spec fn providers_without(providers: Seq<RpcProvider>, url: Seq<char>) -> Seq<RpcProvider>
    decreases providers.len(),
{
    if providers.len() == 0 {
        Seq::empty()
    } else {
        let pre = providers_without(providers.drop_last(), url);
        if providers.last().url@ != url {
            pre.push(providers.last())
        } else {
            pre
        }
    }
}

/// The groups as plain values.
pub open spec fn groups_view(gs: Seq<ResponseGroup>) -> Seq<GroupView> {
    gs.map_values(|g: ResponseGroup| g@)
}

/// The text after `"Quorum not reached. total_weight="` for the first `n`
/// groups: one clause per group, at most six.
pub open spec fn group_clauses(gs: Seq<GroupView>, n: nat) -> Seq<char>
    decreases n,
{
    if n == 0 {
        Seq::empty()
    } else {
        let i = (n - 1) as nat;
        group_clauses(gs, i) + "; group"@ + crate::text::decimal(i) + " weight="@ + hundredths_text(
            gs[i as int].1,
        ) + " count="@ + crate::text::decimal(gs[i as int].2) + " providers=["@ + joined(
            gs[i as int].3,
        ) + "]"@
    }
}

/// A weight in thousandths written in units with two decimals, rounded half up.
pub open spec fn hundredths_text(w: nat) -> Seq<char> {
    let h = (w + 5) / 10;
    crate::text::decimal(h / 100) + "."@ + crate::text::decimal((h % 100) / 10) + crate::text::decimal(
        h % 10,
    )
}

/// Strings joined with commas.
pub open spec fn joined(items: Seq<Seq<char>>) -> Seq<char>
    decreases items.len(),
{
    if items.len() == 0 {
        Seq::empty()
    } else if items.len() == 1 {
        items[0]
    } else {
        joined(items.drop_last()) + ","@ + items.last()
    }
}

/// The diagnostic of a failed quorum.
pub open spec fn no_quorum_text(gs: Seq<GroupView>, total: nat) -> Seq<char> {
    "Quorum not reached. total_weight="@ + hundredths_text(total) + group_clauses(
        gs,
        if gs.len() < 6 {
            gs.len()
        } else {
            6
        },
    )
}

fn push_hundredths(s: &mut String, w: u64)
    ensures
        final(s)@ == old(s)@ + hundredths_text(w as nat),
{
    let h = w / 10 + (w % 10 + 5) / 10;
    assert(h == (w + 5) / 10);
    let ghost start = s@;
    crate::text::push_decimal(s, h / 100);
    s.append(".");
    crate::text::push_decimal(s, (h % 100) / 10);
    crate::text::push_decimal(s, h % 10);
    assert(s@ =~= start + hundredths_text(w as nat));
}

fn push_joined(s: &mut String, items: &Vec<String>)
    ensures
        final(s)@ == old(s)@ + joined(items@.map_values(|x: String| x@)),
{
    let ghost start = s@;
    let ghost iv = items@.map_values(|x: String| x@);
    let mut i: usize = 0;
    while i < items.len()
        invariant
            i <= items@.len(),
            iv == items@.map_values(|x: String| x@),
            s@ == start + joined(iv.subrange(0, i as int)),
        decreases items@.len() - i,
    {
        if i > 0 {
            s.append(",");
        }
        s.append(items[i].as_str());
        proof {
            let pre = iv.subrange(0, i + 1);
            assert(pre.drop_last() =~= iv.subrange(0, i as int));
            if i == 0 {
                assert(iv.subrange(0, 0) =~= Seq::<Seq<char>>::empty());
            }
            assert(s@ =~= start + joined(pre));
        }
        i = i + 1;
    }
    assert(iv.subrange(0, i as int) =~= iv);
}

impl QuorumClient {
    fn weight_for(&self, url: &String) -> (w: u64)
        ensures
            w == configured_weight(self.providers@, url@),
    {
        let mut i = self.providers.len();
        assert(self.providers@.subrange(0, i as int) =~= self.providers@);
        while i > 0
            invariant
                i <= self.providers@.len(),
                configured_weight(self.providers@, url@) == configured_weight(
                    self.providers@.subrange(0, i as int),
                    url@,
                ),
            decreases i,
        {
            assert(self.providers@.subrange(0, i as int).drop_last() =~= self.providers@.subrange(
                0,
                i - 1,
            ));
            if self.providers[i - 1].url == *url {
                return self.providers[i - 1].weight;
            }
            i = i - 1;
        }
        1000
    }

    fn total_weight(&self) -> (t: u64)
        requires
            total_provider_weight(self.providers@) <= u64::MAX,
        ensures
            t == total_provider_weight(self.providers@),
    {
        let mut t: u64 = 0;
        let mut i: usize = 0;
        while i < self.providers.len()
            invariant
                i <= self.providers@.len(),
                total_provider_weight(self.providers@) <= u64::MAX,
                t == total_provider_weight(self.providers@.subrange(0, i as int)),
            decreases self.providers@.len() - i,
        {
            proof {
                assert(self.providers@.subrange(0, i + 1).drop_last() =~= self.providers@.subrange(
                    0,
                    i as int,
                ));
                lemma_total_weight_prefix(self.providers@, i + 1);
            }
            t = t + self.providers[i].weight;
            i = i + 1;
        }
        assert(self.providers@.subrange(0, i as int) =~= self.providers@);
        t
    }

    /// Groups the successful responses by their data, in order of first
    /// appearance.
    pub fn group_responses(&self, responses: &Vec<RpcResponse>) -> (gs: Vec<ResponseGroup>)
        requires
            response_weight(self.providers@, responses@) <= u64::MAX,
        ensures
            groups_view(gs@) == response_groups(self.providers@, responses@),
    {
        let mut gs: Vec<ResponseGroup> = Vec::new();
        let mut i: usize = 0;
        let n = responses.len();
        while i < responses.len()
            invariant
                i <= responses@.len(),
                response_weight(self.providers@, responses@) <= u64::MAX,
                groups_view(gs@) == response_groups(self.providers@, responses@.subrange(0, i as int)),
                forall|k: int| 0 <= k < gs@.len() ==> (#[trigger] gs@[k]).weight <= response_weight(
                    self.providers@,
                    responses@.subrange(0, i as int),
                ) && gs@[k].count <= i,
                responses@.len() <= usize::MAX,
            decreases responses@.len() - i,
        {
            let ghost pre = responses@.subrange(0, i + 1);
            proof {
                assert(pre.drop_last() =~= responses@.subrange(0, i as int));
                lemma_response_weight_prefix(self.providers@, responses@, i + 1);
            }
            let r = &responses[i];
            if r.success {
                let w = self.weight_for(&r.provider);
                let ghost before = groups_view(gs@);
                proof {
                    lemma_group_index_bounds(before, r.data@);
                }
                let mut k: usize = 0;
                while k < gs.len() && !crate::bytes::bytes_equal(gs[k].data.as_slice(), r.data.as_slice())
                    invariant
                        k <= gs@.len(),
                        before == groups_view(gs@),
                        forall|j: int| 0 <= j < k ==> (#[trigger] before[j]).0 != r.data@,
                    decreases gs@.len() - k,
                {
                    k = k + 1;
                }
                proof {
                    lemma_group_index_is_first(before, r.data@, k as int);
                }
                if k < gs.len() {
                    let mut g = gs[k].duplicate();
                    g.weight = g.weight + w;
                    g.count = g.count + 1;
                    let ghost gp = g.providers@;
                    let name = copy_string(&r.provider);
                    g.providers.push(name);
                    proof {
                        assert(g.providers@.map_values(|s: String| s@) =~= gp.map_values(
                            |s: String| s@,
                        ).push(r.provider@));
                    }
                    gs.set(k, g);
                } else {
                    let mut ps: Vec<String> = Vec::new();
                    ps.push(copy_string(&r.provider));
                    let g = ResponseGroup {
                        data: crate::bytes::to_byte_vec(r.data.as_slice()),
                        weight: w,
                        count: 1,
                        providers: ps,
                    };
                    assert(g.providers@.map_values(|s: String| s@) =~= seq![r.provider@]);
                    gs.push(g);
                }
                assert(groups_view(gs@) =~= response_groups(self.providers@, pre));
            } else {
                assert(groups_view(gs@) =~= response_groups(self.providers@, pre));
            }
            i = i + 1;
        }
        assert(responses@.subrange(0, i as int) =~= responses@);
        gs
    }
}

proof fn lemma_total_weight_prefix(s: Seq<RpcProvider>, i: int)
    requires
        0 <= i <= s.len(),
    ensures
        total_provider_weight(s.subrange(0, i)) <= total_provider_weight(s),
    decreases s.len() - i,
{
    if i < s.len() {
        lemma_total_weight_prefix(s, i + 1);
        assert(s.subrange(0, i + 1).drop_last() =~= s.subrange(0, i));
    } else {
        assert(s.subrange(0, i) =~= s);
    }
}

proof fn lemma_response_weight_prefix(p: Seq<RpcProvider>, s: Seq<RpcResponse>, i: int)
    requires
        0 <= i <= s.len(),
    ensures
        response_weight(p, s.subrange(0, i)) <= response_weight(p, s),
    decreases s.len() - i,
{
    if i < s.len() {
        lemma_response_weight_prefix(p, s, i + 1);
        assert(s.subrange(0, i + 1).drop_last() =~= s.subrange(0, i));
    } else {
        assert(s.subrange(0, i) =~= s);
    }
}

/// Reorders groups by the given positions.
fn reorder_groups(gs: &Vec<ResponseGroup>, order: &Vec<usize>) -> (out: Vec<ResponseGroup>)
    requires
        forall|j: int| 0 <= j < order@.len() ==> #[trigger] order@[j] < gs@.len(),
    ensures
        groups_view(out@) == order@.map_values(|x: usize| x as int).map_values(
            |i: int| groups_view(gs@)[i],
        ),
{
    let mut out: Vec<ResponseGroup> = Vec::new();
    let mut j: usize = 0;
    while j < order.len()
        invariant
            j <= order@.len(),
            forall|t: int| 0 <= t < order@.len() ==> #[trigger] order@[t] < gs@.len(),
            groups_view(out@) == order@.subrange(0, j as int).map_values(|x: usize| x as int).map_values(
                |i: int| groups_view(gs@)[i],
            ),
        decreases order@.len() - j,
    {
        let g = gs[order[j]].duplicate();
        let ghost prev = out@;
        out.push(g);
        proof {
            assert(out@ == prev.push(g));
            assert(groups_view(out@) =~= groups_view(prev).push(g@));
            assert(g@ == groups_view(gs@)[order@[j as int] as int]);
            assert(order@.subrange(0, j + 1).map_values(|x: usize| x as int) =~= order@.subrange(
                0,
                j as int,
            ).map_values(|x: usize| x as int).push(order@[j as int] as int));
        }
        j = j + 1;
        assert(groups_view(out@) =~= order@.subrange(0, j as int).map_values(|x: usize| x as int).map_values(
            |i: int| groups_view(gs@)[i],
        ));
    }
    assert(order@.subrange(0, j as int) =~= order@);
    out
}

impl QuorumClient {
    /// Computes the weighted quorum decision over provider responses: the
    /// successful responses are grouped by data and ranked heaviest first;
    /// the heaviest group wins when it carries at least `min_percentage`
    /// thousandths of the total provider weight and at least `min_quorum`
    /// responses.
    pub fn compute_quorum_decision(&self, responses: &Vec<RpcResponse>) -> (d: QuorumDecision)
        requires
            total_provider_weight(self.providers@) <= u64::MAX,
            response_weight(self.providers@, responses@) <= u64::MAX,
        ensures
            d.view_decision() == quorum_decision_spec(self.providers@, self.config, responses@),
    {
        let total = self.total_weight();
        let gs = self.group_responses(responses);
        let mut ws: Vec<u128> = Vec::new();
        let mut k: usize = 0;
        while k < gs.len()
            invariant
                k <= gs@.len(),
                ws@ == group_weights(groups_view(gs@)).subrange(0, k as int),
            decreases gs@.len() - k,
        {
            ws.push(gs[k].weight as u128);
            k = k + 1;
            assert(ws@ =~= group_weights(groups_view(gs@)).subrange(0, k as int));
        }
        assert(ws@ =~= group_weights(groups_view(gs@)));
        let order = crate::ranking::rank_by_weight_desc(&ws);
        proof {
            crate::ranking::lemma_rank_desc_in_range(ws@, ws@.len());
            assert forall|j: int| 0 <= j < order@.len() implies #[trigger] order@[j] < gs@.len() by {
                assert(order@.map_values(|x: usize| x as int)[j] == order@[j] as int);
            }
        }
        let ranked = reorder_groups(&gs, &order);
        assert(groups_view(ranked@) =~= ranked_groups(response_groups(self.providers@, responses@)));
        if ranked.len() == 0 {
            let empty: Vec<ResponseGroup> = Vec::new();
            assert(groups_view(empty@) =~= Seq::<GroupView>::empty());
            return QuorumDecision::NoConsensus { groups: empty, total_weight: total };
        }
        let best = &ranked[0];
        proof {
            let bw = best.weight as u128;
            let mp = self.config.min_percentage as u128;
            let tw = total as u128;
            assert(bw * 1000 <= 0xffff_ffff_ffff_ffff * 1000) by (nonlinear_arith)
                requires
                    bw <= 0xffff_ffff_ffff_ffff,
            ;
            assert(mp * tw <= 0xffff_ffff_ffff_ffff * 0xffff_ffff_ffff_ffff) by (nonlinear_arith)
                requires
                    mp <= 0xffff_ffff_ffff_ffff,
                    tw <= 0xffff_ffff_ffff_ffff,
            ;
        }
        let meets_weight = (best.weight as u128) * 1000 >= (self.config.min_percentage as u128) * (
        total as u128);
        let meets_count = best.count >= self.config.min_quorum;
        if meets_weight && meets_count {
            let data = crate::bytes::to_byte_vec(best.data.as_slice());
            let supporting_providers = copy_strings(&best.providers);
            QuorumDecision::Consensus { data, weight: best.weight, supporting_providers }
        } else {
            QuorumDecision::NoConsensus { groups: ranked, total_weight: total }
        }
    }

    /// The outcome of a quorum query over the responses: the agreed data,
    /// or an error that lists the groups.
    #[verifier::rlimit(40)]
    pub fn quorum_outcome(&self, responses: &Vec<RpcResponse>) -> (r: Result<Vec<u8>, ProtocolError>)
        requires
            total_provider_weight(self.providers@) <= u64::MAX,
            response_weight(self.providers@, responses@) <= u64::MAX,
        ensures
            match quorum_decision_spec(self.providers@, self.config, responses@) {
                DecisionView::Consensus(data, _, _) => r matches Ok(v) && v@ == data,
                DecisionView::NoConsensus(gs, total) => r matches Err(
                    ProtocolError::RpcQuorumFailed(m),
                ) && m@ == no_quorum_text(gs, total),
            },
    {
        match self.compute_quorum_decision(responses) {
            QuorumDecision::Consensus { data, .. } => Ok(data),
            QuorumDecision::NoConsensus { groups, total_weight } => {
                let mut m = String::from_str("Quorum not reached. total_weight=");
                push_hundredths(&mut m, total_weight);
                let ghost gv = groups_view(groups@);
                let ghost start = m@;
                let limit = if groups.len() < 6 {
                    groups.len()
                } else {
                    6
                };
                let mut i: usize = 0;
                while i < limit
                    invariant
                        i <= limit <= groups@.len(),
                        gv == groups_view(groups@),
                        m@ == start + group_clauses(gv, i as nat),
                    decreases limit - i,
                {
                    let g = &groups[i];
                    let ghost before = m@;
                    m.append("; group");
                    crate::text::push_decimal(&mut m, i as u64);
                    m.append(" weight=");
                    push_hundredths(&mut m, g.weight);
                    m.append(" count=");
                    crate::text::push_decimal(&mut m, g.count as u64);
                    m.append(" providers=[");
                    push_joined(&mut m, &g.providers);
                    m.append("]");
                    proof {
                        assert(gv[i as int] == g@);
                        assert(m@ =~= start + group_clauses(gv, (i + 1) as nat));
                    }
                    i = i + 1;
                }
                Err(ProtocolError::RpcQuorumFailed(m))
            },
        }
    }

    /// The data that every response carries, when all agree.
    pub fn verify_consensus(&self, responses: &Vec<RpcResponse>) -> (r: Option<Vec<u8>>)
        ensures
            responses@.len() == 0 ==> r is None,
            responses@.len() > 0 ==> (r is Some <==> forall|i: int|
                0 <= i < responses@.len() ==> (#[trigger] responses@[i]).data@ == responses@[0].data@),
            r matches Some(v) ==> v@ == responses@[0].data@,
    {
        if responses.len() == 0 {
            return None;
        }
        let mut i: usize = 1;
        while i < responses.len()
            invariant
                1 <= i <= responses@.len(),
                forall|j: int| 0 <= j < i ==> (#[trigger] responses@[j]).data@ == responses@[0].data@,
            decreases responses@.len() - i,
        {
            if !crate::bytes::bytes_equal(responses[i].data.as_slice(), responses[0].data.as_slice()) {
                return None;
            }
            i = i + 1;
        }
        Some(crate::bytes::to_byte_vec(responses[0].data.as_slice()))
    }
}

} // verus!
