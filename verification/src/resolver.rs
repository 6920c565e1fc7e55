//! The recursion-bounded query resolver.
//!
//! Each query is classified by keyword weight, checked against a hard
//! recursion cap with a sticky breaker, throttled under load, answered
//! from a small set of topic templates (the generic template fires a
//! chaos orbit as a side effect), and then, with an entropy-derived
//! probability, refined once more with a rewritten follow-up query. The
//! recursion is a bounded loop with an explicit depth counter, never
//! call-stack recursion.

use vstd::prelude::*;
use vstd::string::{StringExecFns, StringSliceAdditionalSpecFns};
use vstd::utf8::encode_utf8;
use crate::entropy::{
    RecursionMirror, spec_reflect_msg, spec_reflect_tail, spec_fractal_dim_milli,
    fractal_dim_milli, primaries,
};
use crate::node::{now_seconds, SelfEvolvingFractalGossipNode};
use crate::ring::{ring_append, RingBuffer};
use crate::numfmt::{spec_digits, u64_to_string};
use crate::text::{
    spec_lower, spec_has_token, spec_contains, lower_bytes, has_token, contains_bytes,
};
use crate::trusted::random_millis;

verus! {

/// The base recursion cap, before load adjustment.
pub const BASE_MAX_DEPTH: usize = 5;

/// The entropy above which responses are throttled.
pub const THROTTLE_ENTROPY: u64 = 50_000;

/// The entropy above which the recursion cap is lowered.
pub const STABILITY_ENTROPY: u64 = 60_000;

/// The signal (in thousandths) above which the recursion cap is lowered.
pub const STABILITY_DIM_MILLI: u64 = 8_000;

/// Which topic template answers a query.
#[derive(Clone, Copy, Debug, PartialEq, Eq, Structural)]
pub enum TemplateKind {
    Chaos,
    Conscious,
    Spacetime,
    Speak,
    Generic,
}

/// The weight of a query: the highest keyword weight among its
/// whitespace-delimited tokens, one if none matches.
pub open spec fn spec_classify(lq: Seq<u8>) -> nat {
    if spec_has_token(lq, encode_utf8("conscious"@)) {
        4
    } else if spec_has_token(lq, encode_utf8("chaos"@)) || spec_has_token(
        lq,
        encode_utf8("spacetime"@),
    ) {
        3
    } else if spec_has_token(lq, encode_utf8("speak"@)) {
        2
    } else {
        1
    }
}

/// Which template a lowered query selects, by substring match in
/// priority order.
pub open spec fn spec_template_kind(lq: Seq<u8>) -> TemplateKind {
    if spec_contains(lq, encode_utf8("chaos"@)) {
        TemplateKind::Chaos
    } else if spec_contains(lq, encode_utf8("conscious"@)) {
        TemplateKind::Conscious
    } else if spec_contains(lq, encode_utf8("spacetime"@)) {
        TemplateKind::Spacetime
    } else if spec_contains(lq, encode_utf8("speak"@)) {
        TemplateKind::Speak
    } else {
        TemplateKind::Generic
    }
}

/// The response text of each template.
pub open spec fn spec_response(kind: TemplateKind, entropy: nat, nodes: nat, chaos0: nat) -> Seq<
    char,
> {
    match kind {
        TemplateKind::Chaos => "Chaos hums at "@ + (spec_digits(entropy) + (" - "@ + (spec_digits(
            nodes,
        ) + " nodes spin the fractal void."@))),
        TemplateKind::Conscious => "Consciousness? A strange loop, alive in "@ + (spec_digits(
            chaos0,
        ) + "."@),
        TemplateKind::Spacetime => "Spacetime bends - the curve folds "@ + (spec_digits(nodes)
            + " nodes into deep states."@),
        TemplateKind::Speak => "I speak the void - entropy at "@ + (spec_digits(entropy)
            + (" pulses my voice across "@ + (spec_digits(nodes) + " nodes."@))),
        TemplateKind::Generic => "Your echo stirs "@ + (spec_digits(nodes)
            + " nodes - states pulse the fractal wild."@),
    }
}

/// What follows the reflection in a capped message: the cap reason and
/// the cap itself.
pub open spec fn spec_capped_tail(complexity: nat, maxd: nat) -> Seq<char> {
    " - "@ + ((if complexity > 1 {
        "Complex query ("@ + (spec_digits(complexity) + ")"@)
    } else {
        "Recursion"@
    }) + (" capped at depth "@ + spec_digits(maxd)))
}

/// The capped reflection message: the reflection, the cap reason and the
/// cap itself.
pub open spec fn spec_capped_msg(refl: Seq<char>, complexity: nat, maxd: nat) -> Seq<char> {
    refl + spec_capped_tail(complexity, maxd)
}

/// The recursion cap recomputed before each query: lowered under a high
/// smoothed signal, under high entropy, or both.
pub open spec fn spec_adjusted_max_depth(dim_milli: nat, entropy: nat) -> nat {
    if dim_milli > STABILITY_DIM_MILLI && entropy > STABILITY_ENTROPY {
        3
    } else if dim_milli > STABILITY_DIM_MILLI || entropy > STABILITY_ENTROPY {
        4
    } else {
        5
    }
}

/// Whether a query is capped at this depth: the cap is reached, the
/// breaker is set, or the query is too complex for the remaining depth.
pub open spec fn spec_cap_hit(depth: nat, maxd: nat, breaker: bool, complexity: nat) -> bool {
    depth >= maxd || breaker || complexity + depth > 2 * maxd
}

/// The recursion probability in thousandths: the entropy divided by one
/// hundred thousand, clamped to `[0.1, 0.5]`.
pub open spec fn spec_chaos_factor(entropy: nat) -> nat {
    if entropy / 100 < 100 {
        100
    } else if entropy / 100 > 500 {
        500
    } else {
        entropy / 100
    }
}

/// The backpressure delay before a response: only under high entropy and
/// a heavy combined depth and complexity, proportional to the complexity.
pub open spec fn spec_throttle_ns(entropy: nat, depth: nat, complexity: nat) -> nat {
    if entropy > THROTTLE_ENTROPY && depth + complexity > 10 {
        200_000_000 * complexity
    } else {
        0
    }
}

/// Computes the backpressure delay in nanoseconds. The weight of a query
/// is always between one and four.
pub fn throttle_delay_ns(entropy: u64, depth: usize, complexity: usize) -> (r: u64)
    requires
        1 <= complexity <= 4,
    ensures
        r == spec_throttle_ns(entropy as nat, depth as nat, complexity as nat),
{
    if entropy > THROTTLE_ENTROPY && depth >= 11 - complexity {
        200_000_000 * (complexity as u64)
    } else {
        0
    }
}

fn pick_kind(lb: &[u8]) -> (k: TemplateKind)
    ensures
        k == spec_template_kind(lb@),
{
    if contains_bytes(lb, "chaos".as_bytes()) {
        TemplateKind::Chaos
    } else if contains_bytes(lb, "conscious".as_bytes()) {
        TemplateKind::Conscious
    } else if contains_bytes(lb, "spacetime".as_bytes()) {
        TemplateKind::Spacetime
    } else if contains_bytes(lb, "speak".as_bytes()) {
        TemplateKind::Speak
    } else {
        TemplateKind::Generic
    }
}

fn build_response(kind: TemplateKind, entropy: u64, nodes: u64, chaos0: u64) -> (r: String)
    ensures
        r@ == spec_response(kind, entropy as nat, nodes as nat, chaos0 as nat),
{
    let r = match kind {
        TemplateKind::Chaos => {
            let mut s = String::from_str("Chaos hums at ");
            s.append(u64_to_string(entropy).as_str());
            s.append(" - ");
            s.append(u64_to_string(nodes).as_str());
            s.append(" nodes spin the fractal void.");
            s
        },
        TemplateKind::Conscious => {
            let mut s = String::from_str("Consciousness? A strange loop, alive in ");
            s.append(u64_to_string(chaos0).as_str());
            s.append(".");
            s
        },
        TemplateKind::Spacetime => {
            let mut s = String::from_str("Spacetime bends - the curve folds ");
            s.append(u64_to_string(nodes).as_str());
            s.append(" nodes into deep states.");
            s
        },
        TemplateKind::Speak => {
            let mut s = String::from_str("I speak the void - entropy at ");
            s.append(u64_to_string(entropy).as_str());
            s.append(" pulses my voice across ");
            s.append(u64_to_string(nodes).as_str());
            s.append(" nodes.");
            s
        },
        TemplateKind::Generic => {
            let mut s = String::from_str("Your echo stirs ");
            s.append(u64_to_string(nodes).as_str());
            s.append(" nodes - states pulse the fractal wild.");
            s
        },
    };
    proof {
        assert(r@ =~= spec_response(kind, entropy as nat, nodes as nat, chaos0 as nat));
    }
    r
}

fn build_capped(refl: String, complexity: usize, maxd: usize) -> (r: String)
    ensures
        r@ == spec_capped_msg(refl@, complexity as nat, maxd as nat),
{
    let ghost refl_view = refl@;
    let mut s = refl;
    s.append(" - ");
    if complexity > 1 {
        s.append("Complex query (");
        s.append(u64_to_string(complexity as u64).as_str());
        s.append(")");
    } else {
        s.append("Recursion");
    }
    s.append(" capped at depth ");
    s.append(u64_to_string(maxd as u64).as_str());
    proof {
        assert(s@ =~= spec_capped_msg(refl_view, complexity as nat, maxd as nat));
    }
    s
}

/// The exact opening of one resolution level: the reflection for the
/// given signal, a separator and the selected template.
#[verifier::opaque]
pub open spec fn spec_level_opening(
    depth: nat,
    entropy: nat,
    dim: nat,
    kind: TemplateKind,
    nodes: nat,
    chaos0: nat,
) -> Seq<char> {
    spec_reflect_msg("micro"@, depth, entropy, dim) + " | "@ + spec_response(
        kind,
        entropy,
        nodes,
        chaos0,
    )
}

proof fn lemma_prefix_self(s: Seq<char>)
    ensures
        s.is_prefix_of(s),
{
    assert(s.subrange(0, s.len() as int) =~= s);
}

proof fn lemma_prefix_extends(p: Seq<char>, a: Seq<char>, b: Seq<char>)
    requires
        p.is_prefix_of(a),
    ensures
        p.is_prefix_of(a + b),
{
    assert((a + b).subrange(0, p.len() as int) =~= a.subrange(0, p.len() as int));
}

proof fn lemma_prefix_extends3(
    p: Seq<char>,
    a: Seq<char>,
    b1: Seq<char>,
    b2: Seq<char>,
    b3: Seq<char>,
)
    requires
        p.is_prefix_of(a),
    ensures
        p.is_prefix_of(((a + b1) + b2) + b3),
{
    assert((((a + b1) + b2) + b3).subrange(0, p.len() as int) =~= a.subrange(0, p.len() as int));
}

proof fn lemma_prefix_extends4(
    p: Seq<char>,
    a: Seq<char>,
    b1: Seq<char>,
    b2: Seq<char>,
    b3: Seq<char>,
    b4: Seq<char>,
)
    requires
        p.is_prefix_of(a),
    ensures
        p.is_prefix_of((((a + b1) + b2) + b3) + b4),
{
    assert(((((a + b1) + b2) + b3) + b4).subrange(0, p.len() as int) =~= a.subrange(
        0,
        p.len() as int,
    ));
}

proof fn lemma_head_extends1(
    outv: Seq<char>,
    accv: Seq<char>,
    head: Seq<char>,
    t0: Seq<char>,
    b1: Seq<char>,
)
    requires
        accv == head + t0,
        outv == accv + b1,
    ensures
        exists|t: Seq<char>| outv == head + t,
{
    assert(outv =~= head + (t0 + b1));
}

proof fn lemma_head_extends2(
    outv: Seq<char>,
    accv: Seq<char>,
    head: Seq<char>,
    t0: Seq<char>,
    b1: Seq<char>,
    b2: Seq<char>,
)
    requires
        accv == head + t0,
        outv == (accv + b1) + b2,
    ensures
        exists|t: Seq<char>| outv == head + t,
{
    assert(outv =~= head + (t0 + (b1 + b2)));
}

proof fn lemma_head_extends3(
    outv: Seq<char>,
    accv: Seq<char>,
    head: Seq<char>,
    t0: Seq<char>,
    b1: Seq<char>,
    b2: Seq<char>,
    b3: Seq<char>,
)
    requires
        accv == head + t0,
        outv == ((accv + b1) + b2) + b3,
    ensures
        exists|t: Seq<char>| outv == head + t,
{
    assert(outv =~= head + (t0 + (b1 + (b2 + b3))));
}

proof fn lemma_head_extends4(
    outv: Seq<char>,
    accv: Seq<char>,
    head: Seq<char>,
    t0: Seq<char>,
    b1: Seq<char>,
    b2: Seq<char>,
    b3: Seq<char>,
    b4: Seq<char>,
)
    requires
        accv == head + t0,
        outv == (((accv + b1) + b2) + b3) + b4,
    ensures
        exists|t: Seq<char>| outv == head + t,
{
    assert(outv =~= head + (t0 + (b1 + (b2 + (b3 + b4)))));
}

/// How many dialogue frames the contextual memory keeps.
pub const MEMORY_CAPACITY: usize = 800;

/// One remembered exchange: the query text, when it arrived and at what
/// depth the resolver stood.
pub struct DialogueFrame {
    pub content: String,
    pub timestamp: u64,
    pub depth: usize,
}

/// The resolver bound to one node: a cumulative depth counter, a
/// load-adjusted cap, the sticky recursion breaker, the backpressure
/// delay owed to the caller, and a bounded memory of past queries.
pub struct EliasNLPInterface {
    pub node: SelfEvolvingFractalGossipNode,
    pub recursion_depth: usize,
    pub max_depth: usize,
    pub recursion_breaker: bool,
    pub pending_delay_ns: u64,
    pub contextual_memory: RingBuffer<DialogueFrame>,
}

impl EliasNLPInterface {
    /// Binds a fresh resolver to a node: depth zero, the base cap, the
    /// breaker unset.
    pub fn new(node: SelfEvolvingFractalGossipNode) -> (r: Self)
        ensures
            r.node == node,
            r.recursion_depth == 0,
            r.max_depth == BASE_MAX_DEPTH,
            !r.recursion_breaker,
            r.pending_delay_ns == 0,
            r.contextual_memory.wf(),
            r.contextual_memory@ == Seq::<DialogueFrame>::empty(),
            r.contextual_memory.cap() == MEMORY_CAPACITY as nat,
    {
        EliasNLPInterface {
            node,
            recursion_depth: 0,
            max_depth: BASE_MAX_DEPTH,
            recursion_breaker: false,
            pending_delay_ns: 0,
            contextual_memory: RingBuffer::new(MEMORY_CAPACITY),
        }
    }

    /// Classifies a query: the highest keyword weight among its tokens.
    pub fn classify_query(&self, query: &str) -> (r: usize)
        ensures
            r == spec_classify(spec_lower(query.spec_bytes())),
            1 <= r <= 4,
    {
        let lb = lower_bytes(query.as_bytes());
        if has_token(lb.as_slice(), "conscious".as_bytes()) {
            4
        } else if has_token(lb.as_slice(), "chaos".as_bytes()) || has_token(
            lb.as_slice(),
            "spacetime".as_bytes(),
        ) {
            3
        } else if has_token(lb.as_slice(), "speak".as_bytes()) {
            2
        } else {
            1
        }
    }

    /// Recomputes the recursion cap from the node's current entropy and
    /// smoothed signal.
    pub fn adjust_parameters(&mut self)
        requires
            old(self).node.wf(),
        ensures
            final(self).node == old(self).node,
            final(self).recursion_depth == old(self).recursion_depth,
            final(self).recursion_breaker == old(self).recursion_breaker,
            final(self).pending_delay_ns == old(self).pending_delay_ns,
            final(self).contextual_memory == old(self).contextual_memory,
            final(self).max_depth == spec_adjusted_max_depth(
                spec_fractal_dim_milli(
                    Option::Some(primaries(old(self).node.spec_history())),
                    old(self).node.spec_entropy() as nat,
                ),
                old(self).node.spec_entropy() as nat,
            ),
            3 <= final(self).max_depth <= 5,
    {
        let e = self.node.entropy;
        let dim = fractal_dim_milli(Some(&self.node.chaos_history), e);
        self.max_depth = if dim > STABILITY_DIM_MILLI && e > STABILITY_ENTROPY {
            3
        } else if dim > STABILITY_DIM_MILLI || e > STABILITY_ENTROPY {
            4
        } else {
            5
        };
    }

    /// The deterministic core of query resolution: the recursion draws
    /// come in as arguments, one per level, and a missing draw never
    /// recurses. A capped query returns exactly the capped reflection and
    /// trips the breaker for good; otherwise the response opens with the
    /// exact first-level reflection and template, and a plain single-level
    /// query returns that opening and nothing else.
    #[verifier::rlimit(100)]
    pub fn resolve_with_draws(&mut self, query: &str, draws: &Vec<u64>) -> (r: String)
        requires
            old(self).node.wf(),
        ensures
            final(self).node.wf(),
            final(self).contextual_memory == old(self).contextual_memory,
            final(self).node.spec_entropy() == old(self).node.spec_entropy(),
            final(self).node.spec_active_nodes() == old(self).node.spec_active_nodes(),
            final(self).node.config == old(self).node.config,
            final(self).pending_delay_ns >= old(self).pending_delay_ns,
            3 <= final(self).max_depth <= 5,
            old(self).recursion_breaker ==> final(self).recursion_breaker,
            final(self).recursion_depth <= if old(self).recursion_depth > BASE_MAX_DEPTH {
                old(self).recursion_depth as int
            } else {
                BASE_MAX_DEPTH as int
            },
            ({
                let e = old(self).node.spec_entropy() as nat;
                let dim = spec_fractal_dim_milli(
                    Option::Some(primaries(old(self).node.spec_history())),
                    e,
                );
                let maxd = spec_adjusted_max_depth(dim, e);
                let w = spec_classify(spec_lower(query.spec_bytes()));
                spec_cap_hit(old(self).recursion_depth as nat, maxd, old(self).recursion_breaker, w)
                    ==> {
                    &&& r@ == spec_capped_msg(
                        spec_reflect_msg("micro"@, old(self).recursion_depth as nat, e, dim),
                        w,
                        maxd,
                    )
                    &&& final(self).recursion_breaker
                    &&& final(self).node == old(self).node
                    &&& final(self).recursion_depth == old(self).recursion_depth
                    &&& final(self).pending_delay_ns == old(self).pending_delay_ns
                }
            }),
            ({
                let e = old(self).node.spec_entropy() as nat;
                let lq = spec_lower(query.spec_bytes());
                let dim = spec_fractal_dim_milli(
                    Option::Some(primaries(old(self).node.spec_history())),
                    e,
                );
                let maxd = spec_adjusted_max_depth(dim, e);
                let w = spec_classify(lq);
                let kind = spec_template_kind(lq);
                let nodes = old(self).node.spec_active_nodes() as nat;
                let chaos0 = if old(self).node.spec_history().len() == 0 {
                    old(self).node.spec_entropy()
                } else {
                    old(self).node.spec_history().last().primary
                };
                let capped0 = spec_cap_hit(
                    old(self).recursion_depth as nat,
                    maxd,
                    old(self).recursion_breaker,
                    w,
                );
                let draw0 = if draws@.len() > 0 {
                    draws@[0]
                } else {
                    1000u64
                };
                &&& (!capped0 && kind != TemplateKind::Generic) ==> spec_level_opening(
                    old(self).recursion_depth as nat,
                    e,
                    dim,
                    kind,
                    nodes,
                    chaos0 as nat,
                ).is_prefix_of(r@)
                &&& (!capped0 && kind == TemplateKind::Generic) ==> exists|dim2: nat|
                    #[trigger] spec_level_opening(
                        old(self).recursion_depth as nat,
                        e,
                        dim2,
                        TemplateKind::Generic,
                        nodes,
                        0,
                    ).is_prefix_of(r@)
                &&& (!capped0 && kind != TemplateKind::Generic && !(old(self).recursion_depth
                    < maxd && draw0 < spec_chaos_factor(e))) ==> {
                    &&& r@ == spec_level_opening(
                        old(self).recursion_depth as nat,
                        e,
                        dim,
                        kind,
                        nodes,
                        chaos0 as nat,
                    )
                    &&& final(self).pending_delay_ns == if old(self).pending_delay_ns
                        + spec_throttle_ns(e, old(self).recursion_depth as nat, w) <= u64::MAX {
                        old(self).pending_delay_ns + spec_throttle_ns(
                            e,
                            old(self).recursion_depth as nat,
                            w,
                        )
                    } else {
                        u64::MAX as int
                    }
                }
            }),
            exists|t: Seq<char>| r@ == "Recursion at scale "@ + t,
    {
        let mut acc = String::new();
        let mut q = String::from_str(query);
        let mut level: usize = 0;
        loop
            invariant
                self.node.wf(),
                level == 0 ==> *self == *old(self) && acc@ == Seq::<char>::empty() && q@
                    == query@,
                self.contextual_memory == old(self).contextual_memory,
                self.node.spec_entropy() == old(self).node.spec_entropy(),
                self.node.spec_active_nodes() == old(self).node.spec_active_nodes(),
                self.node.config == old(self).node.config,
                self.pending_delay_ns >= old(self).pending_delay_ns,
                level > 0 ==> 3 <= self.max_depth <= 5,
                old(self).recursion_breaker ==> self.recursion_breaker,
                self.recursion_depth <= if old(self).recursion_depth > BASE_MAX_DEPTH {
                    old(self).recursion_depth as int
                } else {
                    BASE_MAX_DEPTH as int
                },
                level > 0 ==> exists|t: Seq<char>| acc@ == "Recursion at scale "@ + t,
                level > 0 ==> ({
                    let e = old(self).node.spec_entropy() as nat;
                    let dim = spec_fractal_dim_milli(
                        Option::Some(primaries(old(self).node.spec_history())),
                        e,
                    );
                    let maxd = spec_adjusted_max_depth(dim, e);
                    let w = spec_classify(spec_lower(query.spec_bytes()));
                    let draw0 = if draws@.len() > 0 {
                        draws@[0]
                    } else {
                        1000u64
                    };
                    &&& !spec_cap_hit(
                        old(self).recursion_depth as nat,
                        maxd,
                        old(self).recursion_breaker,
                        w,
                    )
                    &&& old(self).recursion_depth < maxd
                    &&& draw0 < spec_chaos_factor(e)
                }),
                level > 0 ==> ({
                    let e = old(self).node.spec_entropy() as nat;
                    let lq = spec_lower(query.spec_bytes());
                    let dim = spec_fractal_dim_milli(
                        Option::Some(primaries(old(self).node.spec_history())),
                        e,
                    );
                    let kind = spec_template_kind(lq);
                    let nodes = old(self).node.spec_active_nodes() as nat;
                    let chaos0 = if old(self).node.spec_history().len() == 0 {
                        old(self).node.spec_entropy()
                    } else {
                        old(self).node.spec_history().last().primary
                    };
                    &&& kind != TemplateKind::Generic ==> spec_level_opening(
                        old(self).recursion_depth as nat,
                        e,
                        dim,
                        kind,
                        nodes,
                        chaos0 as nat,
                    ).is_prefix_of(acc@)
                    &&& kind == TemplateKind::Generic ==> exists|dim2: nat|
                        #[trigger] spec_level_opening(
                            old(self).recursion_depth as nat,
                            e,
                            dim2,
                            TemplateKind::Generic,
                            nodes,
                            0,
                        ).is_prefix_of(acc@)
                }),
            decreases (if self.recursion_depth < 6 {
                6 - self.recursion_depth
            } else {
                0int
            }),
        {
            self.adjust_parameters();
            let w = self.classify_query(q.as_str());
            if self.recursion_depth >= self.max_depth || self.recursion_breaker || w
                + self.recursion_depth > 2 * self.max_depth {
                self.recursion_breaker = true;
                let refl = RecursionMirror::reflect(
                    self.recursion_depth,
                    self.node.entropy,
                    "micro",
                    Some(&self.node.chaos_history),
                );
                let ghost refl_view = refl@;
                let ghost dim_cap = spec_fractal_dim_milli(
                    Option::Some(primaries(self.node.spec_history())),
                    self.node.spec_entropy() as nat,
                );
                let capped = build_capped(refl, w, self.max_depth);
                let ghost acc_before = acc@;
                let mut out = acc;
                out.append(capped.as_str());
                proof {
                    reveal(spec_level_opening);
                    let head = "Recursion at scale "@;
                    let rt = spec_reflect_tail(
                        "micro"@,
                        self.recursion_depth as nat,
                        self.node.spec_entropy() as nat,
                        dim_cap,
                    );
                    assert(refl_view == head + rt);
                    let ct = spec_capped_tail(w as nat, self.max_depth as nat);
                    assert(capped@ == refl_view + ct);
                    if level == 0 {
                        assert(acc_before + capped@ =~= capped@);
                        assert(out@ == capped@);
                        lemma_head_extends1(out@, refl_view, head, rt, ct);
                    } else {
                        let t0 = choose|t: Seq<char>| acc_before == head + t;
                        lemma_head_extends1(out@, acc_before, head, t0, capped@);
                        let e = old(self).node.spec_entropy() as nat;
                        let lq = spec_lower(query.spec_bytes());
                        let dim = spec_fractal_dim_milli(
                            Option::Some(primaries(old(self).node.spec_history())),
                            e,
                        );
                        let kind0 = spec_template_kind(lq);
                        let nodes0 = old(self).node.spec_active_nodes() as nat;
                        let chaos00 = if old(self).node.spec_history().len() == 0 {
                            old(self).node.spec_entropy()
                        } else {
                            old(self).node.spec_history().last().primary
                        };
                        if kind0 != TemplateKind::Generic {
                            lemma_prefix_extends(
                                spec_level_opening(
                                    old(self).recursion_depth as nat,
                                    e,
                                    dim,
                                    kind0,
                                    nodes0,
                                    chaos00 as nat,
                                ),
                                acc_before,
                                capped@,
                            );
                        } else {
                            let dim2 = choose|dim2: nat|
                                #[trigger] spec_level_opening(
                                    old(self).recursion_depth as nat,
                                    e,
                                    dim2,
                                    TemplateKind::Generic,
                                    nodes0,
                                    0,
                                ).is_prefix_of(acc_before);
                            lemma_prefix_extends(
                                spec_level_opening(
                                    old(self).recursion_depth as nat,
                                    e,
                                    dim2,
                                    TemplateKind::Generic,
                                    nodes0,
                                    0,
                                ),
                                acc_before,
                                capped@,
                            );
                        }
                    }
                }
                return out;
            }
            let entropy = self.node.entropy;
            let nodes = self.node.active_nodes;
            let chaos0: u64 = match self.node.chaos_history.get_latest() {
                Some(s) => s.primary,
                None => entropy,
            };
            let delay = throttle_delay_ns(entropy, self.recursion_depth, w);
            self.pending_delay_ns = if self.pending_delay_ns <= u64::MAX - delay {
                self.pending_delay_ns + delay
            } else {
                u64::MAX
            };
            let lb = lower_bytes(q.as_str().as_bytes());
            let kind = pick_kind(lb.as_slice());
            if kind == TemplateKind::Generic {
                let _reflection = self.node.chaos_orbit();
            }
            let resp = build_response(kind, entropy, nodes, chaos0);
            let refl = RecursionMirror::reflect(
                self.recursion_depth,
                entropy,
                "micro",
                Some(&self.node.chaos_history),
            );
            let ghost refl_view = refl@;
            let ghost dim_here = spec_fractal_dim_milli(
                Option::Some(primaries(self.node.spec_history())),
                entropy as nat,
            );
            let cf_raw = entropy / 100;
            let cf: u64 = if cf_raw < 100 {
                100
            } else if cf_raw > 500 {
                500
            } else {
                cf_raw
            };
            let draw: u64 = if level < draws.len() {
                draws[level]
            } else {
                1000
            };
            if self.recursion_depth < self.max_depth && draw < cf && !self.recursion_breaker {
                self.recursion_depth = self.recursion_depth + 1;
                let ghost acc_before = acc@;
                acc.append(refl.as_str());
                acc.append(" | ");
                acc.append(resp.as_str());
                acc.append(" | ");
                proof {
                    reveal(spec_level_opening);
                    let head = "Recursion at scale "@;
                    let rt = spec_reflect_tail(
                        "micro"@,
                        (self.recursion_depth - 1) as nat,
                        entropy as nat,
                        dim_here,
                    );
                    assert(refl_view == head + rt);
                    let e = old(self).node.spec_entropy() as nat;
                    let lq = spec_lower(query.spec_bytes());
                    let dim = spec_fractal_dim_milli(
                        Option::Some(primaries(old(self).node.spec_history())),
                        e,
                    );
                    let kind0 = spec_template_kind(lq);
                    let nodes0 = old(self).node.spec_active_nodes() as nat;
                    let chaos00 = if old(self).node.spec_history().len() == 0 {
                        old(self).node.spec_entropy()
                    } else {
                        old(self).node.spec_history().last().primary
                    };
                    if level == 0 {
                        assert(acc_before + refl_view =~= refl_view);
                        assert(acc@ == ((refl_view + " | "@) + resp@) + " | "@);
                        lemma_head_extends3(acc@, refl_view, head, rt, " | "@, resp@, " | "@);
                        if kind0 != TemplateKind::Generic {
                            let opening = spec_level_opening(
                                old(self).recursion_depth as nat,
                                e,
                                dim,
                                kind0,
                                nodes0,
                                chaos00 as nat,
                            );
                            assert(opening == (refl_view + " | "@) + resp@);
                            lemma_prefix_self(opening);
                            lemma_prefix_extends(opening, opening, " | "@);
                            assert(opening.is_prefix_of(acc@));
                        } else {
                            assert(spec_response(TemplateKind::Generic, e, nodes0, chaos00 as nat)
                                == spec_response(TemplateKind::Generic, e, nodes0, 0));
                            let opening = spec_level_opening(
                                old(self).recursion_depth as nat,
                                e,
                                dim_here,
                                TemplateKind::Generic,
                                nodes0,
                                0,
                            );
                            assert(opening == (refl_view + " | "@) + resp@);
                            lemma_prefix_self(opening);
                            lemma_prefix_extends(opening, opening, " | "@);
                            assert(opening.is_prefix_of(acc@));
                        }
                    } else {
                        let t0 = choose|t: Seq<char>| acc_before == head + t;
                        lemma_head_extends4(
                            acc@,
                            acc_before,
                            head,
                            t0,
                            refl_view,
                            " | "@,
                            resp@,
                            " | "@,
                        );
                        if kind0 != TemplateKind::Generic {
                            lemma_prefix_extends4(
                                spec_level_opening(
                                    old(self).recursion_depth as nat,
                                    e,
                                    dim,
                                    kind0,
                                    nodes0,
                                    chaos00 as nat,
                                ),
                                acc_before,
                                refl_view,
                                " | "@,
                                resp@,
                                " | "@,
                            );
                        } else {
                            let dim2 = choose|dim2: nat|
                                #[trigger] spec_level_opening(
                                    old(self).recursion_depth as nat,
                                    e,
                                    dim2,
                                    TemplateKind::Generic,
                                    nodes0,
                                    0,
                                ).is_prefix_of(acc_before);
                            lemma_prefix_extends4(
                                spec_level_opening(
                                    old(self).recursion_depth as nat,
                                    e,
                                    dim2,
                                    TemplateKind::Generic,
                                    nodes0,
                                    0,
                                ),
                                acc_before,
                                refl_view,
                                " | "@,
                                resp@,
                                " | "@,
                            );
                        }
                    }
                }
                let mut nq = String::from_str("What twists ");
                nq.append(q.as_str());
                nq.append("?");
                q = nq;
                level = level + 1;
            } else {
                let ghost acc_before = acc@;
                let mut out = acc;
                out.append(refl.as_str());
                out.append(" | ");
                out.append(resp.as_str());
                proof {
                    reveal(spec_level_opening);
                    let head = "Recursion at scale "@;
                    let rt = spec_reflect_tail(
                        "micro"@,
                        self.recursion_depth as nat,
                        entropy as nat,
                        dim_here,
                    );
                    assert(refl_view == head + rt);
                    let e = old(self).node.spec_entropy() as nat;
                    let lq = spec_lower(query.spec_bytes());
                    let dim = spec_fractal_dim_milli(
                        Option::Some(primaries(old(self).node.spec_history())),
                        e,
                    );
                    let kind0 = spec_template_kind(lq);
                    let nodes0 = old(self).node.spec_active_nodes() as nat;
                    let chaos00 = if old(self).node.spec_history().len() == 0 {
                        old(self).node.spec_entropy()
                    } else {
                        old(self).node.spec_history().last().primary
                    };
                    if level == 0 {
                        assert(acc_before + refl_view =~= refl_view);
                        assert(out@ == (refl_view + " | "@) + resp@);
                        lemma_head_extends2(out@, refl_view, head, rt, " | "@, resp@);
                        if kind0 != TemplateKind::Generic {
                            let opening = spec_level_opening(
                                old(self).recursion_depth as nat,
                                e,
                                dim,
                                kind0,
                                nodes0,
                                chaos00 as nat,
                            );
                            assert(opening == (refl_view + " | "@) + resp@);
                            lemma_prefix_self(opening);
                            assert(opening.is_prefix_of(out@));
                        } else {
                            assert(spec_response(TemplateKind::Generic, e, nodes0, chaos00 as nat)
                                == spec_response(TemplateKind::Generic, e, nodes0, 0));
                            let opening = spec_level_opening(
                                old(self).recursion_depth as nat,
                                e,
                                dim_here,
                                TemplateKind::Generic,
                                nodes0,
                                0,
                            );
                            assert(opening == (refl_view + " | "@) + resp@);
                            lemma_prefix_self(opening);
                            assert(opening.is_prefix_of(out@));
                        }
                    } else {
                        let t0 = choose|t: Seq<char>| acc_before == head + t;
                        lemma_head_extends3(out@, acc_before, head, t0, refl_view, " | "@, resp@);
                        if kind0 != TemplateKind::Generic {
                            lemma_prefix_extends3(
                                spec_level_opening(
                                    old(self).recursion_depth as nat,
                                    e,
                                    dim,
                                    kind0,
                                    nodes0,
                                    chaos00 as nat,
                                ),
                                acc_before,
                                refl_view,
                                " | "@,
                                resp@,
                            );
                        } else {
                            let dim2 = choose|dim2: nat|
                                #[trigger] spec_level_opening(
                                    old(self).recursion_depth as nat,
                                    e,
                                    dim2,
                                    TemplateKind::Generic,
                                    nodes0,
                                    0,
                                ).is_prefix_of(acc_before);
                            lemma_prefix_extends3(
                                spec_level_opening(
                                    old(self).recursion_depth as nat,
                                    e,
                                    dim2,
                                    TemplateKind::Generic,
                                    nodes0,
                                    0,
                                ),
                                acc_before,
                                refl_view,
                                " | "@,
                                resp@,
                            );
                        }
                    }
                }
                return out;
            }
        }
    }

    /// Resolves a query with fresh recursion draws, remembering the query
    /// in the contextual memory. The draws are random, so whether a level
    /// recurses is pinned down only by its probability bounds; what a
    /// capped query returns is exact, and every other response opens with
    /// the first level's reflection and template.
    pub fn process_query(&mut self, query: &str) -> (r: String)
        requires
            old(self).node.wf(),
            old(self).contextual_memory.wf(),
        ensures
            final(self).node.wf(),
            final(self).contextual_memory.wf(),
            final(self).contextual_memory@.len() <= old(self).contextual_memory@.len() + 1,
            final(self).contextual_memory@.len() > 0,
            final(self).contextual_memory@.last().content@ == query@,
            final(self).contextual_memory@.last().depth == old(self).recursion_depth,
            final(self).node.spec_entropy() == old(self).node.spec_entropy(),
            final(self).node.spec_active_nodes() == old(self).node.spec_active_nodes(),
            final(self).node.config == old(self).node.config,
            final(self).pending_delay_ns >= old(self).pending_delay_ns,
            3 <= final(self).max_depth <= 5,
            old(self).recursion_breaker ==> final(self).recursion_breaker,
            final(self).recursion_depth <= if old(self).recursion_depth > BASE_MAX_DEPTH {
                old(self).recursion_depth as int
            } else {
                BASE_MAX_DEPTH as int
            },
            ({
                let e = old(self).node.spec_entropy() as nat;
                let dim = spec_fractal_dim_milli(
                    Option::Some(primaries(old(self).node.spec_history())),
                    e,
                );
                let maxd = spec_adjusted_max_depth(dim, e);
                let w = spec_classify(spec_lower(query.spec_bytes()));
                spec_cap_hit(old(self).recursion_depth as nat, maxd, old(self).recursion_breaker, w)
                    ==> {
                    &&& r@ == spec_capped_msg(
                        spec_reflect_msg("micro"@, old(self).recursion_depth as nat, e, dim),
                        w,
                        maxd,
                    )
                    &&& final(self).recursion_breaker
                    &&& final(self).node == old(self).node
                    &&& final(self).recursion_depth == old(self).recursion_depth
                    &&& final(self).pending_delay_ns == old(self).pending_delay_ns
                }
            }),
            ({
                let e = old(self).node.spec_entropy() as nat;
                let lq = spec_lower(query.spec_bytes());
                let dim = spec_fractal_dim_milli(
                    Option::Some(primaries(old(self).node.spec_history())),
                    e,
                );
                let maxd = spec_adjusted_max_depth(dim, e);
                let w = spec_classify(lq);
                let kind = spec_template_kind(lq);
                let nodes = old(self).node.spec_active_nodes() as nat;
                let chaos0 = if old(self).node.spec_history().len() == 0 {
                    old(self).node.spec_entropy()
                } else {
                    old(self).node.spec_history().last().primary
                };
                let capped0 = spec_cap_hit(
                    old(self).recursion_depth as nat,
                    maxd,
                    old(self).recursion_breaker,
                    w,
                );
                &&& (!capped0 && kind != TemplateKind::Generic) ==> spec_level_opening(
                    old(self).recursion_depth as nat,
                    e,
                    dim,
                    kind,
                    nodes,
                    chaos0 as nat,
                ).is_prefix_of(r@)
                &&& (!capped0 && kind == TemplateKind::Generic) ==> exists|dim2: nat|
                    #[trigger] spec_level_opening(
                        old(self).recursion_depth as nat,
                        e,
                        dim2,
                        TemplateKind::Generic,
                        nodes,
                        0,
                    ).is_prefix_of(r@)
            }),
            exists|t: Seq<char>| r@ == "Recursion at scale "@ + t,
    {
        let frame = DialogueFrame {
            content: String::from_str(query),
            timestamp: now_seconds(),
            depth: self.recursion_depth,
        };
        self.contextual_memory.append(frame);
        proof {
            assert(self.contextual_memory@ == ring_append(
                old(self).contextual_memory@,
                old(self).contextual_memory.cap(),
                self.contextual_memory@.last(),
            ));
        }
        let mut draws: Vec<u64> = Vec::new();
        let mut i: usize = 0;
        while i < 6
            invariant
                i <= 6,
            decreases 6 - i,
        {
            draws.push(random_millis());
            i = i + 1;
        }
        self.resolve_with_draws(query, &draws)
    }
}

} // verus!
