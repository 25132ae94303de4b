use vstd::prelude::*;

verus! {

/// What a window coordinator asks its host to do, in the order given.
#[derive(Debug, PartialEq, Eq)]
pub enum Outbound {
    /// Permit the window to read the file at this path.
    AllowFile(String),
    /// Emit the "inspect" event carrying this path to the window.
    Inspect(String),
    /// Emit the "error" event carrying this message to the window.
    Error(String),
}

/// The mathematical view of an [`Outbound`] request.
pub enum OutboundModel {
    AllowFile(Seq<char>),
    Inspect(Seq<char>),
    Error(Seq<char>),
}

impl View for Outbound {
    type V = OutboundModel;

    open spec fn view(&self) -> OutboundModel {
        match self {
            Outbound::AllowFile(p) => OutboundModel::AllowFile(p@),
            Outbound::Inspect(p) => OutboundModel::Inspect(p@),
            Outbound::Error(e) => OutboundModel::Error(e@),
        }
    }
}

/// The views of a sequence of requests.
pub open spec fn outbound_view(v: Seq<Outbound>) -> Seq<OutboundModel> {
    v.map_values(|o: Outbound| o@)
}

/// The requests that deliver a path: first the read grant, then the "inspect" event. A grant
/// that fails is reported as an error and does not hold the event back.
pub open spec fn delivery(path: Seq<char>) -> Seq<OutboundModel> {
    seq![OutboundModel::AllowFile(path), OutboundModel::Inspect(path)]
}

/// One "error" event per message, in the order of the messages.
pub open spec fn error_events(messages: Seq<Seq<char>>) -> Seq<OutboundModel> {
    messages.map_values(|m: Seq<char>| OutboundModel::Error(m))
}

/// The mathematical view of an [`InspectState`].
pub struct InspectModel {
    pub label: Seq<char>,
    pub ready: bool,
    pub queued: Option<Seq<char>>,
    pub backlog: Seq<Seq<char>>,
}

/// The views of a sequence of strings.
pub open spec fn strings_view(v: Seq<String>) -> Seq<Seq<char>> {
    v.map_values(|s: String| s@)
}

/// The state of one inspection window: whether its content has signalled readiness, the
/// latest path waiting for that, and the errors reported before it.
pub struct InspectState {
    /// The label of the window that this state belongs to.
    pub label: String,
    ready: bool,
    path: Option<String>,
    errors: Vec<String>,
}

impl View for InspectState {
    type V = InspectModel;

    closed spec fn view(&self) -> InspectModel {
        InspectModel {
            label: self.label@,
            ready: self.ready,
            queued: match self.path {
                Some(p) => Some(p@),
                None => None,
            },
            backlog: strings_view(self.errors@),
        }
    }
}

impl InspectModel {
    /// Once ready, nothing is queued and nothing is held back.
    pub open spec fn wf(self) -> bool {
        self.ready ==> (self.queued is None && self.backlog.len() == 0)
    }
}

impl InspectState {
    pub open spec fn wf(&self) -> bool {
        self@.wf()
    }

    /// A state for the window `label` that has not yet signalled readiness.
    pub fn new(label: String) -> (r: InspectState)
        ensures
            r@ == (InspectModel { label: label@, ready: false, queued: None, backlog: seq![] }),
            r.wf(),
    {
        let r = InspectState { label, ready: false, path: None, errors: Vec::new() };
        proof {
            assert(strings_view(r.errors@) =~= seq![]);
        }
        r
    }

    /// Whether the window has signalled readiness.
    pub fn is_ready(&self) -> (r: bool)
        ensures
            r == self@.ready,
    {
        self.ready
    }

    /// The path waiting for readiness, if any.
    pub fn queued_path(&self) -> (r: Option<String>)
        ensures
            r is Some <==> self@.queued is Some,
            r is Some ==> r->0@ == self@.queued->0,
    {
        match &self.path {
            Some(p) => Some(p.clone()),
            None => None,
        }
    }

    /// The errors held back until readiness, oldest first.
    pub fn error_backlog(&self) -> (r: Vec<String>)
        ensures
            strings_view(r@) == self@.backlog,
    {
        let mut r: Vec<String> = Vec::new();
        let mut i: usize = 0;
        while i < self.errors.len()
            invariant
                i <= self.errors@.len(),
                strings_view(r@) =~= strings_view(self.errors@.subrange(0, i as int)),
            decreases self.errors@.len() - i,
        {
            let ghost before = r@;
            r.push(self.errors[i].clone());
            i += 1;
            proof {
                assert(r@ =~= before.push(self.errors@[i - 1]));
                assert(strings_view(r@) =~= strings_view(before).push(self.errors@[i - 1]@));
                assert(self.errors@.subrange(0, i as int) =~= self.errors@.subrange(0, i - 1).push(
                    self.errors@[i - 1],
                ));
            }
        }
        proof {
            assert(self.errors@.subrange(0, i as int) =~= self.errors@);
        }
        r
    }

    /// Submits a path: delivered at once to a ready window, otherwise queued in place of any
    /// path queued before.
    pub fn send(&mut self, path: String) -> (out: Vec<Outbound>)
        requires
            old(self).wf(),
        ensures
            final(self).wf(),
            final(self)@ == after_send(old(self)@, path@),
            outbound_view(out@) == send_requests(old(self)@, path@),
    {
        if self.ready {
            let out = vec![Outbound::AllowFile(path.clone()), Outbound::Inspect(path)];
            proof {
                assert(outbound_view(out@) =~= delivery(path@));
            }
            out
        } else {
            self.path = Some(path);
            Vec::new()
        }
    }

    /// Reports an error: emitted at once by a ready window, otherwise held back in order.
    pub fn error_string(&mut self, error: String) -> (out: Vec<Outbound>)
        requires
            old(self).wf(),
        ensures
            final(self).wf(),
            final(self)@ == after_error(old(self)@, error@),
            outbound_view(out@) == error_requests(old(self)@, error@),
    {
        if self.ready {
            let out = vec![Outbound::Error(error)];
            proof {
                assert(outbound_view(out@) =~= error_events(seq![error@]));
            }
            out
        } else {
            self.errors.push(error);
            proof {
                assert(strings_view(self.errors@) =~= old(self)@.backlog.push(error@));
            }
            Vec::new()
        }
    }

    /// Marks the window ready: delivers the queued path, if any, then every held-back error
    /// in the order reported. Once ready, a further call asks for nothing.
    pub fn ready(&mut self) -> (out: Vec<Outbound>)
        requires
            old(self).wf(),
        ensures
            final(self).wf(),
            final(self)@ == after_ready(old(self)@),
            outbound_view(out@) == ready_requests(old(self)@),
    {
        self.ready = true;
        let mut out: Vec<Outbound> = Vec::new();
        if let Some(path) = self.path.take() {
            out.push(Outbound::AllowFile(path.clone()));
            out.push(Outbound::Inspect(path));
        }
        let ghost head = outbound_view(out@);
        assert(head =~= queued_delivery(old(self)@.queued));
        let mut errors: Vec<String> = Vec::new();
        std::mem::swap(&mut errors, &mut self.errors);
        let ghost backlog = strings_view(errors@);
        let mut i: usize = 0;
        while i < errors.len()
            invariant
                i <= errors@.len(),
                backlog == strings_view(errors@),
                outbound_view(out@) =~= head + error_events(backlog.subrange(0, i as int)),
            decreases errors@.len() - i,
        {
            let ghost before = out@;
            out.push(Outbound::Error(errors[i].clone()));
            i += 1;
            proof {
                assert(out@ =~= before.push(Outbound::Error(errors@[i - 1])));
                assert(outbound_view(out@) =~= outbound_view(before).push(
                    OutboundModel::Error(backlog[i - 1]),
                ));
                assert(backlog.subrange(0, i as int) =~= backlog.subrange(0, i - 1).push(
                    backlog[i - 1],
                ));
                assert(error_events(backlog.subrange(0, i as int)) =~= error_events(
                    backlog.subrange(0, i - 1),
                ).push(OutboundModel::Error(backlog[i - 1])));
            }
        }
        proof {
            assert(backlog.subrange(0, i as int) =~= backlog);
            assert(strings_view(self.errors@) =~= seq![]);
        }
        out
    }
}

/// The state after a path is submitted.
pub open spec fn after_send(s: InspectModel, path: Seq<char>) -> InspectModel {
    if s.ready {
        s
    } else {
        InspectModel { queued: Some(path), ..s }
    }
}

/// What submitting a path asks for: its delivery to a ready window, nothing otherwise.
pub open spec fn send_requests(s: InspectModel, path: Seq<char>) -> Seq<OutboundModel> {
    if s.ready {
        delivery(path)
    } else {
        seq![]
    }
}

/// The state after an error is reported.
pub open spec fn after_error(s: InspectModel, message: Seq<char>) -> InspectModel {
    if s.ready {
        s
    } else {
        InspectModel { backlog: s.backlog.push(message), ..s }
    }
}

/// What reporting an error asks for: its "error" event from a ready window, nothing otherwise.
pub open spec fn error_requests(s: InspectModel, message: Seq<char>) -> Seq<OutboundModel> {
    if s.ready {
        error_events(seq![message])
    } else {
        seq![]
    }
}

/// The state after readiness: ready, with nothing queued and nothing held back.
pub open spec fn after_ready(s: InspectModel) -> InspectModel {
    InspectModel { ready: true, queued: None, backlog: seq![], ..s }
}

/// What readiness asks for: the delivery of the queued path, if any, then one "error" event
/// per held-back message, oldest first.
pub open spec fn ready_requests(s: InspectModel) -> Seq<OutboundModel> {
    queued_delivery(s.queued) + error_events(s.backlog)
}

/// The delivery of a queued path, or nothing.
pub open spec fn queued_delivery(queued: Option<Seq<char>>) -> Seq<OutboundModel> {
    match queued {
        Some(p) => delivery(p),
        None => seq![],
    }
}

/// The string that JSON text holds, where the text is one JSON string.
pub uninterp spec fn json_string_of(text: Seq<char>) -> Option<Seq<char>>;

/// Relies on serde_json::from_str::<String>: the string that the JSON text holds, or the
/// message of the error when the text is not one JSON string.
#[verifier::external_body]
fn parse_json_string(text: &str) -> (r: Result<String, String>)
    ensures
        r is Ok <==> json_string_of(text@) is Some,
        r is Ok ==> r->Ok_0@ == json_string_of(text@)->0,
{
    match serde_json::from_str::<String>(text) {
        Ok(s) => Ok(s),
        Err(e) => Err(e.to_string()),
    }
}

/// The state after a parsed "ready" payload: readiness where it names this window, the
/// parse error held back or emitted where it did not parse.
pub open spec fn after_ready_payload(s: InspectModel, parsed: Result<Seq<char>, Seq<char>>) -> InspectModel {
    match parsed {
        Ok(name) => if name == s.label {
            after_ready(s)
        } else {
            s
        },
        Err(message) => after_error(s, message),
    }
}

/// What a parsed "ready" payload asks for.
pub open spec fn ready_payload_requests(
    s: InspectModel,
    parsed: Result<Seq<char>, Seq<char>>,
) -> Seq<OutboundModel> {
    match parsed {
        Ok(name) => if name == s.label {
            ready_requests(s)
        } else {
            seq![]
        },
        Err(message) => error_requests(s, message),
    }
}

/// The view of a parse result.
pub open spec fn parsed_view(parsed: Result<String, String>) -> Result<Seq<char>, Seq<char>> {
    match parsed {
        Ok(name) => Ok(name@),
        Err(message) => Err(message@),
    }
}

impl InspectState {
    /// Applies the payload of a "ready" event, already parsed: the host may hand a window the
    /// readiness of another, so only a payload naming this window's label makes it ready.
    /// Returns the requests, and whether the window is done listening for "ready".
    pub fn ready_payload(&mut self, parsed: Result<String, String>) -> (r: (Vec<Outbound>, bool))
        requires
            old(self).wf(),
        ensures
            final(self).wf(),
            final(self)@ == after_ready_payload(old(self)@, parsed_view(parsed)),
            outbound_view(r.0@) == ready_payload_requests(old(self)@, parsed_view(parsed)),
            r.1 == (parsed is Ok && parsed->Ok_0@ == old(self)@.label),
    {
        match parsed {
            Ok(name) => {
                if name == self.label {
                    (self.ready(), true)
                } else {
                    let out: Vec<Outbound> = Vec::new();
                    proof {
                        assert(outbound_view(out@) =~= seq![]);
                    }
                    (out, false)
                }
            },
            Err(message) => (self.error_string(message), false),
        }
    }

    /// Handles the raw payload of a "ready" event: parses it as a JSON string, then applies it
    /// as [`InspectState::ready_payload`] does.
    pub fn ready_event(&mut self, payload: &str) -> (r: (Vec<Outbound>, bool))
        requires
            old(self).wf(),
        ensures
            final(self).wf(),
            json_string_of(payload@) is Some ==> {
                let parsed = Ok(json_string_of(payload@)->0);
                &&& final(self)@ == after_ready_payload(old(self)@, parsed)
                &&& outbound_view(r.0@) == ready_payload_requests(old(self)@, parsed)
                &&& r.1 == (json_string_of(payload@)->0 == old(self)@.label)
            },
            json_string_of(payload@) is None ==> exists|message: Seq<char>|
                {
                    &&& final(self)@ == after_error(old(self)@, message)
                    &&& outbound_view(r.0@) == error_requests(old(self)@, message)
                } && !r.1,
    {
        let parsed = parse_json_string(payload);
        let ghost pv = parsed_view(parsed);
        let r = self.ready_payload(parsed);
        proof {
            if json_string_of(payload@) is None {
                assert(self@ == after_error(old(self)@, pv->Err_0));
            }
        }
        r
    }
}

/// The state after submitting paths one after another.
pub open spec fn send_all(s: InspectModel, paths: Seq<Seq<char>>) -> InspectModel
    decreases paths.len(),
{
    if paths.len() == 0 {
        s
    } else {
        after_send(send_all(s, paths.drop_last()), paths.last())
    }
}

/// The requests of submitting paths one after another, in order.
pub open spec fn send_all_requests(s: InspectModel, paths: Seq<Seq<char>>) -> Seq<OutboundModel>
    decreases paths.len(),
{
    if paths.len() == 0 {
        seq![]
    } else {
        send_all_requests(s, paths.drop_last()) + send_requests(
            send_all(s, paths.drop_last()),
            paths.last(),
        )
    }
}

/// The state after reporting errors one after another.
pub open spec fn error_all(s: InspectModel, messages: Seq<Seq<char>>) -> InspectModel
    decreases messages.len(),
{
    if messages.len() == 0 {
        s
    } else {
        after_error(error_all(s, messages.drop_last()), messages.last())
    }
}

/// The requests of reporting errors one after another, in order.
pub open spec fn error_all_requests(s: InspectModel, messages: Seq<Seq<char>>) -> Seq<
    OutboundModel,
>
    decreases messages.len(),
{
    if messages.len() == 0 {
        seq![]
    } else {
        error_all_requests(s, messages.drop_last()) + error_requests(
            error_all(s, messages.drop_last()),
            messages.last(),
        )
    }
}

/// Paths submitted to a window that is not ready ask for nothing, and leave queued the last
/// of them alone.
pub proof fn lemma_last_path_queued(s: InspectModel, paths: Seq<Seq<char>>)
    requires
        !s.ready,
        paths.len() > 0,
    ensures
        send_all(s, paths) == (InspectModel { queued: Some(paths.last()), ..s }),
        send_all_requests(s, paths) == Seq::<OutboundModel>::empty(),
    decreases paths.len(),
{
    if paths.len() > 1 {
        lemma_last_path_queued(s, paths.drop_last());
    } else {
        assert(send_all(s, paths.drop_last()) == s);
        assert(send_all_requests(s, paths.drop_last()) == Seq::<OutboundModel>::empty());
    }
    assert(send_all_requests(s, paths) =~= Seq::<OutboundModel>::empty());
}

/// Readiness of a window with nothing queued and nothing held back asks for nothing, and a
/// second readiness changes nothing and asks for nothing.
pub proof fn lemma_ready_without_work_is_quiet(s: InspectModel)
    requires
        s.wf(),
        s.queued is None,
        s.backlog.len() == 0,
    ensures
        ready_requests(s) == Seq::<OutboundModel>::empty(),
        after_ready(after_ready(s)) == after_ready(s),
        ready_requests(after_ready(s)) == Seq::<OutboundModel>::empty(),
{
    assert(ready_requests(s) =~= Seq::<OutboundModel>::empty());
    assert(ready_requests(after_ready(s)) =~= Seq::<OutboundModel>::empty());
}

/// A second readiness delivers nothing again: neither the queued path nor any held-back
/// error.
pub proof fn lemma_ready_twice_delivers_once(s: InspectModel)
    requires
        s.wf(),
    ensures
        after_ready(after_ready(s)) == after_ready(s),
        ready_requests(after_ready(s)) == Seq::<OutboundModel>::empty(),
        ready_requests(s) + ready_requests(after_ready(s)) == ready_requests(s),
{
    assert(ready_requests(after_ready(s)) =~= Seq::<OutboundModel>::empty());
    assert(ready_requests(s) + ready_requests(after_ready(s)) =~= ready_requests(s));
}

/// Errors reported to a window that is not ready ask for nothing until it is ready; then
/// they are emitted after any queued delivery, in the order reported.
pub proof fn lemma_errors_emitted_in_order(s: InspectModel, messages: Seq<Seq<char>>)
    requires
        !s.ready,
    ensures
        error_all_requests(s, messages) == Seq::<OutboundModel>::empty(),
        error_all(s, messages) == (InspectModel { backlog: s.backlog + messages, ..s }),
        ready_requests(error_all(s, messages)) == queued_delivery(s.queued) + error_events(
            s.backlog + messages,
        ),
    decreases messages.len(),
{
    if messages.len() > 0 {
        lemma_errors_emitted_in_order(s, messages.drop_last());
        assert(s.backlog + messages =~= (s.backlog + messages.drop_last()).push(messages.last()));
    } else {
        assert(s.backlog + messages =~= s.backlog);
    }
    assert(error_all_requests(s, messages) =~= Seq::<OutboundModel>::empty());
}

} // verus!
