use crate::{opt_text, pairs_text, lemma_pairs_text_push, RequestView};
use std::marker::PhantomData;
use vstd::prelude::*;

verus! {

/// Everything a builder holds, seen as plain values, with its seal.
pub struct BuilderState {
    pub url: Option<Seq<char>>,
    pub method: Option<Seq<char>>,
    pub body: Option<Seq<char>>,
    pub headers: Seq<(Seq<char>, Seq<char>)>,
    pub sealed: bool,
}

impl BuilderState {
    /// A fresh builder: nothing set, no headers, not sealed.
    pub open spec fn initial() -> BuilderState {
        BuilderState { url: None, method: None, body: None, headers: seq![], sealed: false }
    }

    pub open spec fn with_url(self, u: Seq<char>) -> BuilderState {
        BuilderState { url: Some(u), ..self }
    }

    pub open spec fn with_method(self, m: Seq<char>) -> BuilderState {
        BuilderState { method: Some(m), ..self }
    }

    pub open spec fn with_body(self, b: Seq<char>) -> BuilderState {
        BuilderState { body: Some(b), ..self }
    }

    pub open spec fn with_header(self, k: Seq<char>, v: Seq<char>) -> BuilderState {
        BuilderState { headers: self.headers.push((k, v)), ..self }
    }

    pub open spec fn sealed_copy(self) -> BuilderState {
        BuilderState { sealed: true, ..self }
    }

    /// Both mandatory fields are present and the builder is still open.
    pub open spec fn can_seal(self) -> bool {
        self.url is Some && self.method is Some && !self.sealed
    }

    /// Both mandatory fields are present and the builder is sealed.
    pub open spec fn can_finalize(self) -> bool {
        self.url is Some && self.method is Some && self.sealed
    }

    /// The request that finalizing this state yields.
    pub open spec fn finalized(self) -> RequestView {
        RequestView {
            url: self.url.unwrap(),
            method: self.method.unwrap(),
            body: self.body,
            headers: self.headers,
        }
    }
}

/// One operation on a builder before it is finalized.
pub enum Step {
    SetUrl(Seq<char>),
    SetMethod(Seq<char>),
    SetBody(Seq<char>),
    AddHeader(Seq<char>, Seq<char>),
    Seal,
}

/// The state after one step, or `None` where no builder of that state offers the step.
pub open spec fn apply(s: BuilderState, op: Step) -> Option<BuilderState> {
    if s.sealed {
        None
    } else {
        match op {
            Step::SetUrl(u) => Some(s.with_url(u)),
            Step::SetMethod(m) => Some(s.with_method(m)),
            Step::SetBody(b) => Some(s.with_body(b)),
            Step::AddHeader(k, v) => Some(s.with_header(k, v)),
            Step::Seal => if s.can_seal() {
                Some(s.sealed_copy())
            } else {
                None
            },
        }
    }
}

/// The state after a sequence of steps, or `None` where one of them is not offered.
pub open spec fn run(s: BuilderState, ops: Seq<Step>) -> Option<BuilderState>
    decreases ops.len(),
{
    if ops.len() == 0 {
        Some(s)
    } else {
        match run(s, ops.drop_last()) {
            Some(t) => apply(t, ops.last()),
            None => None,
        }
    }
}

/// Some step before position `n` sets the url.
pub open spec fn url_set_before(ops: Seq<Step>, n: int) -> bool {
    exists|i: int| 0 <= i < n && (#[trigger] ops[i]) is SetUrl
}

/// Some step before position `n` sets the method.
pub open spec fn method_set_before(ops: Seq<Step>, n: int) -> bool {
    exists|i: int| 0 <= i < n && (#[trigger] ops[i]) is SetMethod
}

/// One header step for each pair, in order.
pub open spec fn header_steps(pairs: Seq<(Seq<char>, Seq<char>)>) -> Seq<Step> {
    pairs.map_values(|p: (Seq<char>, Seq<char>)| Step::AddHeader(p.0, p.1))
}

/// Setting the url and then the method reaches the same state as setting them the other
/// way round, and from that state the builder may be sealed.
pub proof fn lemma_order_independent(s: BuilderState, u: Seq<char>, m: Seq<char>)
    requires
        !s.sealed,
    ensures
        run(s, seq![Step::SetUrl(u), Step::SetMethod(m)]) == run(
            s,
            seq![Step::SetMethod(m), Step::SetUrl(u)],
        ),
        run(s, seq![Step::SetUrl(u), Step::SetMethod(m)]) is Some,
        run(s, seq![Step::SetUrl(u), Step::SetMethod(m)]).unwrap().can_seal(),
{
    reveal_with_fuel(run, 3);
    let um = seq![Step::SetUrl(u), Step::SetMethod(m)];
    let mu = seq![Step::SetMethod(m), Step::SetUrl(u)];
    assert(um.drop_last() =~= seq![Step::SetUrl(u)]);
    assert(mu.drop_last() =~= seq![Step::SetMethod(m)]);
    assert(seq![Step::SetUrl(u)].drop_last() =~= Seq::<Step>::empty());
    assert(seq![Step::SetMethod(m)].drop_last() =~= Seq::<Step>::empty());
}

/// Adding headers one after another leaves them in the order they were added, duplicate
/// keys included, after those already there; nothing else changes.
pub proof fn lemma_headers_in_order(s: BuilderState, pairs: Seq<(Seq<char>, Seq<char>)>)
    requires
        !s.sealed,
    ensures
        run(s, header_steps(pairs)) == Some(BuilderState { headers: s.headers + pairs, ..s }),
    decreases pairs.len(),
{
    if pairs.len() == 0 {
        assert(s.headers + pairs =~= s.headers);
        assert(header_steps(pairs) =~= Seq::<Step>::empty());
    } else {
        let front = pairs.drop_last();
        lemma_headers_in_order(s, front);
        assert(header_steps(pairs).drop_last() =~= header_steps(front));
        assert(s.headers + pairs =~= (s.headers + front).push(pairs.last()));
    }
}

/// Setting the url, the method or the body twice keeps only the second value.
pub proof fn lemma_last_value_kept(s: BuilderState, a: Seq<char>, b: Seq<char>)
    requires
        !s.sealed,
    ensures
        run(s, seq![Step::SetUrl(a), Step::SetUrl(b)]) == apply(s, Step::SetUrl(b)),
        run(s, seq![Step::SetMethod(a), Step::SetMethod(b)]) == apply(s, Step::SetMethod(b)),
        run(s, seq![Step::SetBody(a), Step::SetBody(b)]) == apply(s, Step::SetBody(b)),
{
    reveal_with_fuel(run, 3);
    assert(seq![Step::SetUrl(a), Step::SetUrl(b)].drop_last() =~= seq![Step::SetUrl(a)]);
    assert(seq![Step::SetMethod(a), Step::SetMethod(b)].drop_last() =~= seq![Step::SetMethod(a)]);
    assert(seq![Step::SetBody(a), Step::SetBody(b)].drop_last() =~= seq![Step::SetBody(a)]);
    assert(seq![Step::SetUrl(a)].drop_last() =~= Seq::<Step>::empty());
    assert(seq![Step::SetMethod(a)].drop_last() =~= Seq::<Step>::empty());
    assert(seq![Step::SetBody(a)].drop_last() =~= Seq::<Step>::empty());
}

/// What a run of steps from a fresh builder shows: a url is present only after a step
/// set it, a method only after a step set it, and a seal only after a seal step that both
/// of those came before.
proof fn lemma_run_history(ops: Seq<Step>)
    requires
        run(BuilderState::initial(), ops) is Some,
    ensures
        ({
            let s = run(BuilderState::initial(), ops).unwrap();
            &&& s.url is Some ==> url_set_before(ops, ops.len() as int)
            &&& s.method is Some ==> method_set_before(ops, ops.len() as int)
            &&& s.sealed ==> exists|k: int|
                0 <= k < ops.len() && (#[trigger] ops[k]) is Seal && url_set_before(ops, k)
                    && method_set_before(ops, k)
        }),
    decreases ops.len(),
{
    if ops.len() > 0 {
        let front = ops.drop_last();
        let n = ops.len() - 1;
        lemma_run_history(front);
        let t = run(BuilderState::initial(), front).unwrap();
        let s = run(BuilderState::initial(), ops).unwrap();
        if t.url is Some {
            let i = choose|i: int| 0 <= i < front.len() && (#[trigger] front[i]) is SetUrl;
            assert(ops[i] == front[i]);
        }
        if t.method is Some {
            let j = choose|j: int| 0 <= j < front.len() && (#[trigger] front[j]) is SetMethod;
            assert(ops[j] == front[j]);
        }
        if ops[n] is SetUrl {
            assert(url_set_before(ops, ops.len() as int));
        }
        if ops[n] is SetMethod {
            assert(method_set_before(ops, ops.len() as int));
        }
        if s.sealed {
            assert(ops[n] is Seal && url_set_before(ops, n) && method_set_before(ops, n));
        }
    }
}

/// A builder reached from a fresh one by any sequence of offered steps can be finalized
/// only if some step set the url and some step set the method before a step that sealed it.
pub proof fn lemma_finalize_needs_url_method_seal(ops: Seq<Step>)
    requires
        run(BuilderState::initial(), ops) is Some,
        run(BuilderState::initial(), ops).unwrap().can_finalize(),
    ensures
        exists|k: int|
            0 <= k < ops.len() && (#[trigger] ops[k]) is Seal && url_set_before(ops, k)
                && method_set_before(ops, k),
{
    lemma_run_history(ops);
}

/// What the url slot of a builder holds.
pub trait UrlSlot {
    spec fn url_payload(&self) -> Option<Seq<char>>;
}

/// What the method slot of a builder holds.
pub trait MethodSlot {
    spec fn method_payload(&self) -> Option<Seq<char>>;
}

/// Whether a builder is sealed.
pub trait SealSlot {
    spec fn is_sealed() -> bool;
}

#[derive(Default, Clone)]
pub struct MissingUrl;

#[derive(Default, Clone)]
pub struct HasUrl(String);

#[derive(Default, Clone)]
pub struct MissingMethod;

#[derive(Default, Clone)]
pub struct HasMethod(String);

#[derive(Default, Clone)]
pub struct MissingSeal;

pub struct HasSeal;

impl UrlSlot for MissingUrl {
    open spec fn url_payload(&self) -> Option<Seq<char>> {
        None
    }
}

impl UrlSlot for HasUrl {
    closed spec fn url_payload(&self) -> Option<Seq<char>> {
        Some(self.0@)
    }
}

impl MethodSlot for MissingMethod {
    open spec fn method_payload(&self) -> Option<Seq<char>> {
        None
    }
}

impl MethodSlot for HasMethod {
    closed spec fn method_payload(&self) -> Option<Seq<char>> {
        Some(self.0@)
    }
}

impl SealSlot for MissingSeal {
    open spec fn is_sealed() -> bool {
        false
    }
}

impl SealSlot for HasSeal {
    open spec fn is_sealed() -> bool {
        true
    }
}

/// A request under construction whose type records which mandatory fields are set
/// and whether it is sealed.
pub struct RequestBuilder<Url, Method, S> {
    url: Url,
    method: Method,
    body: Option<String>,
    headers: Vec<(String, String)>,
    marker_seal: PhantomData<S>,
}

impl<Url: UrlSlot, Method: MethodSlot, S: SealSlot> RequestBuilder<Url, Method, S> {
    /// What this builder holds.
    pub closed spec fn state(&self) -> BuilderState {
        BuilderState {
            url: self.url.url_payload(),
            method: self.method.method_payload(),
            body: opt_text(self.body),
            headers: pairs_text(self.headers@),
            sealed: S::is_sealed(),
        }
    }
}

impl RequestBuilder<MissingUrl, MissingMethod, MissingSeal> {
    /// A fresh builder: no url, no method, no body, no headers, not sealed.
    pub fn new() -> (r: Self)
        ensures
            r.state() == BuilderState::initial(),
    {
        let r = RequestBuilder {
            url: MissingUrl,
            method: MissingMethod,
            body: None,
            headers: Vec::new(),
            marker_seal: PhantomData,
        };
        assert(r.state().headers =~= seq![]);
        r
    }
}

impl RequestBuilder<HasUrl, HasMethod, HasSeal> {
    /// Every builder of this type may be finalized.
    pub proof fn lemma_ready(&self)
        ensures
            self.state().can_finalize(),
    {
    }

    /// Consumes the sealed builder and yields the request it describes.
    pub fn build(self) -> (r: Request)
        ensures
            self.state().can_finalize(),
            r@ == self.state().finalized(),
    {
        Request { url: self.url.0, method: self.method.0, body: self.body, header: self.headers }
    }
}

impl RequestBuilder<HasUrl, HasMethod, MissingSeal> {
    /// Freezes the url and method; offered only once both are set.
    pub fn seal(self) -> (r: RequestBuilder<HasUrl, HasMethod, HasSeal>)
        ensures
            self.state().can_seal(),
            apply(self.state(), Step::Seal) == Some(r.state()),
    {
        RequestBuilder {
            url: self.url,
            method: self.method,
            body: self.body,
            headers: self.headers,
            marker_seal: PhantomData,
        }
    }
}

impl<Url: UrlSlot, Method: MethodSlot> RequestBuilder<Url, Method, MissingSeal> {
    /// Sets the url, replacing any earlier one.
    pub fn url(self, url: String) -> (r: RequestBuilder<HasUrl, Method, MissingSeal>)
        ensures
            apply(self.state(), Step::SetUrl(url@)) == Some(r.state()),
    {
        RequestBuilder {
            url: HasUrl(url),
            method: self.method,
            body: self.body,
            headers: self.headers,
            marker_seal: PhantomData,
        }
    }

    /// Sets the method, replacing any earlier one.
    pub fn method(self, method: String) -> (r: RequestBuilder<Url, HasMethod, MissingSeal>)
        ensures
            apply(self.state(), Step::SetMethod(method@)) == Some(r.state()),
    {
        RequestBuilder {
            url: self.url,
            method: HasMethod(method),
            body: self.body,
            headers: self.headers,
            marker_seal: PhantomData,
        }
    }

    /// Sets the body, replacing any earlier one.
    pub fn body(self, body: String) -> (r: Self)
        ensures
            apply(self.state(), Step::SetBody(body@)) == Some(r.state()),
    {
        RequestBuilder {
            url: self.url,
            method: self.method,
            body: Some(body),
            headers: self.headers,
            marker_seal: PhantomData,
        }
    }

    /// Appends a header after those already added; equal keys are all kept.
    pub fn header(self, header: String, value: String) -> (r: Self)
        ensures
            apply(self.state(), Step::AddHeader(header@, value@)) == Some(r.state()),
    {
        let ghost old_headers = self.headers@;
        let mut headers = self.headers;
        let ghost pair = (header, value);
        headers.push((header, value));
        proof {
            lemma_pairs_text_push(old_headers, pair);
        }
        RequestBuilder {
            url: self.url,
            method: self.method,
            body: self.body,
            headers,
            marker_seal: PhantomData,
        }
    }
}

/// A finished request.
pub struct Request {
    pub url: String,
    pub method: String,
    pub body: Option<String>,
    pub header: Vec<(String, String)>,
}

impl View for Request {
    type V = RequestView;

    open spec fn view(&self) -> RequestView {
        RequestView {
            url: self.url@,
            method: self.method@,
            body: opt_text(self.body),
            headers: pairs_text(self.header@),
        }
    }
}

} // verus!
