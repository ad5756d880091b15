use vstd::prelude::*;
use vstd::string::*;
use crate::dab::{self, error_envelope};
use crate::error::BridgeError;
use crate::key_press::{self, key_code, key_press_frame, missing_key_text};
use crate::restart::{self, restart_frame};
use crate::rpc::{self, transport_text, Exchange, RequestIds, Response};
use crate::version::{self, served_versions, versions_envelope};
use crate::health_check;

verus! {

/// What a handler asks for once it has seen its request: an answer now, or a
/// call on the device connection whose reply settles the answer.
pub enum Action {
    Respond(Result<String, BridgeError>),
    Call(String),
}

/// The device capabilities that a command name can be bound to.
#[derive(Debug, Clone, Copy, PartialEq, Eq, Structural)]
pub enum Handler {
    HealthCheck,
    Version,
    Restart,
    KeyPress,
}

/// A table from command names to handlers; a later binding of a name
/// replaces an earlier one.
pub struct Registry {
    entries: Vec<(String, Handler)>,
}

pub open spec fn map_of(s: Seq<(String, Handler)>) -> Map<Seq<char>, Handler>
    decreases s.len(),
{
    if s.len() == 0 {
        Map::empty()
    } else {
        map_of(s.drop_last()).insert(s.last().0@, s.last().1)
    }
}

/// Entries past `i` that do not bind `k` leave its binding as the first `i` give it.
proof fn lemma_map_of_prefix(s: Seq<(String, Handler)>, i: int, k: Seq<char>)
    requires
        0 <= i <= s.len(),
        forall|j: int| i <= j < s.len() ==> s[j].0@ != k,
    ensures
        map_of(s).contains_key(k) == map_of(s.take(i)).contains_key(k),
        map_of(s).contains_key(k) ==> map_of(s)[k] == map_of(s.take(i))[k],
    decreases s.len(),
{
    if i == s.len() {
        assert(s.take(i) =~= s);
    } else {
        assert(s.drop_last().take(i) =~= s.take(i));
        lemma_map_of_prefix(s.drop_last(), i, k);
    }
}

impl View for Registry {
    type V = Map<Seq<char>, Handler>;

    closed spec fn view(&self) -> Map<Seq<char>, Handler> {
        map_of(self.entries@)
    }
}

impl Registry {
    pub fn new() -> (r: Registry)
        ensures
            r@ == Map::<Seq<char>, Handler>::empty(),
    {
        Registry { entries: Vec::new() }
    }

    /// Binds `name` to `handler`.
    pub fn register(&mut self, name: String, handler: Handler)
        ensures
            final(self)@ == old(self)@.insert(name@, handler),
    {
        let ghost prev = self.entries@;
        self.entries.push((name, handler));
        assert(self.entries@.drop_last() =~= prev);
    }

    /// The handler bound to `name`, if any.
    pub fn lookup(&self, name: &String) -> (r: Option<Handler>)
        ensures
            r == (if self@.contains_key(name@) {
                Some(self@[name@])
            } else {
                None
            }),
    {
        let mut i: usize = self.entries.len();
        while i > 0
            invariant
                i <= self.entries@.len(),
                forall|j: int| i <= j < self.entries@.len() ==> self.entries@[j].0@ != name@,
            decreases i,
        {
            let entry = &self.entries[i - 1];
            if entry.0 == *name {
                proof {
                    let s = self.entries@;
                    lemma_map_of_prefix(s, i as int, name@);
                    assert(s.take(i as int).drop_last() =~= s.take(i - 1));
                }
                return Some(entry.1);
            }
            i = i - 1;
        }
        proof {
            lemma_map_of_prefix(self.entries@, 0, name@);
        }
        None
    }

    /// The fixed set of commands this bridge serves.
    pub fn standard() -> (r: Registry)
        ensures
            r@ == standard_commands(),
    {
        let mut r = Registry::new();
        r.register(String::from_str("dab/health-check/get"), Handler::HealthCheck);
        r.register(String::from_str("dab/version"), Handler::Version);
        r.register(String::from_str("dab/system/restart"), Handler::Restart);
        r.register(String::from_str("dab/input/key-press"), Handler::KeyPress);
        r
    }
}

pub open spec fn standard_commands() -> Map<Seq<char>, Handler> {
    Map::empty().insert("dab/health-check/get"@, Handler::HealthCheck).insert(
        "dab/version"@,
        Handler::Version,
    ).insert("dab/system/restart"@, Handler::Restart).insert(
        "dab/input/key-press"@,
        Handler::KeyPress,
    )
}

/// The position of the last '/' in `t`, or -1 where there is none.
pub open spec fn last_slash(t: Seq<char>) -> int
    decreases t.len(),
{
    if t.len() == 0 {
        -1
    } else if t.last() == '/' {
        t.len() - 1
    } else {
        last_slash(t.drop_last())
    }
}

/// The topic without its final segment (the correlation token) and the '/'
/// before it; empty for a topic of one segment.
pub open spec fn command_name(topic: Seq<char>) -> Seq<char> {
    if last_slash(topic) < 0 {
        Seq::empty()
    } else {
        topic.take(last_slash(topic))
    }
}

/// Where the reply to a message on `topic` is published.
pub open spec fn reply_topic(topic: Seq<char>) -> Seq<char> {
    "_response/"@ + topic
}

proof fn lemma_last_slash_prefix(t: Seq<char>, i: int)
    requires
        0 <= i <= t.len(),
        forall|j: int| i <= j < t.len() ==> t[j] != '/',
    ensures
        last_slash(t) == last_slash(t.take(i)),
    decreases t.len(),
{
    if i == t.len() {
        assert(t.take(i) =~= t);
    } else {
        assert(t.drop_last().take(i) =~= t.take(i));
        lemma_last_slash_prefix(t.drop_last(), i);
    }
}

pub fn command_name_of(topic: &str) -> (r: String)
    ensures
        r@ == command_name(topic@),
{
    let mut i: usize = topic.unicode_len();
    while i > 0
        invariant
            i <= topic@.len(),
            forall|j: int| i <= j < topic@.len() ==> topic@[j] != '/',
        decreases i,
    {
        if topic.get_char(i - 1) == '/' {
            proof {
                lemma_last_slash_prefix(topic@, i as int);
                assert(topic@.take(i as int).drop_last() =~= topic@.take(i - 1));
            }
            return String::from_str(topic.substring_char(0, i - 1));
        }
        i = i - 1;
    }
    proof {
        lemma_last_slash_prefix(topic@, 0);
    }
    String::new()
}

pub fn reply_topic_of(topic: &str) -> (r: String)
    ensures
        r@ == reply_topic(topic@),
{
    let mut r = String::from_str("_response/");
    r.append(topic);
    r
}

/// A payload to publish on a topic.
pub struct Outbound {
    pub topic: String,
    pub payload: String,
}

/// What one inbound message leads to first.
pub enum Step {
    /// The reply is ready.
    Publish(Outbound),
    /// This frame is to be written on the device connection, and the next
    /// frame read from it, parsed as the handler's response shape, handed to
    /// `Bridge::complete`.
    Send(String, Handler),
}

/// The text published for a handler's result: the result itself, or for an
/// error its 500 envelope.
pub open spec fn settled(res: Result<String, BridgeError>) -> Seq<char> {
    match res {
        Ok(t) => t@,
        Err(e) => error_envelope(500, e.text()),
    }
}

pub fn settle(res: Result<String, BridgeError>) -> (r: String)
    ensures
        r@ == settled(res),
{
    match res {
        Ok(t) => t,
        Err(e) => match dab::respond_error(500, e.message()) {
            Ok(t) => t,
            Err(f) => f.message(),
        },
    }
}

/// The router: the command table, the request identifiers, and the reply
/// topic of the one call that may be outstanding on the device connection.
pub struct Bridge {
    registry: Registry,
    ids: RequestIds,
    pending: Option<String>,
}

impl Bridge {
    pub closed spec fn commands(&self) -> Map<Seq<char>, Handler> {
        self.registry@
    }

    /// The reply topic of the outstanding call, if one is.
    pub closed spec fn pending_reply(&self) -> Option<Seq<char>> {
        match self.pending {
            Some(t) => Some(t@),
            None => None,
        }
    }

    /// The request identifier issued last.
    pub closed spec fn last_id(&self) -> nat {
        self.ids.last_issued()
    }

    pub open spec fn is_idle(&self) -> bool {
        self.pending_reply() is None
    }

    pub fn new(registry: Registry) -> (r: Bridge)
        ensures
            r.commands() == registry@,
            r.is_idle(),
            r.last_id() == 0,
    {
        Bridge { registry, ids: RequestIds::new(), pending: None }
    }

    /// No call is outstanding: a message may be dispatched.
    pub fn idle(&self) -> (r: bool)
        ensures
            r == self.is_idle(),
    {
        self.pending.is_none()
    }

    /// Another request identifier can be issued.
    pub fn can_issue(&self) -> (r: bool)
        ensures
            r == (self.last_id() < u64::MAX),
    {
        self.ids.can_issue()
    }

    /// Takes one inbound message: its topic and its decoded parameters.
    /// Exactly one reply comes of it, on the reply topic: at once, or from
    /// `complete` once the device has answered the frame to send.
    pub fn dispatch(&mut self, topic: &str, params: Result<dab::Request, BridgeError>) -> (r: Step)
        requires
            old(self).is_idle(),
            old(self).last_id() < u64::MAX,
        ensures
            final(self).commands() == old(self).commands(),
            r matches Step::Publish(o) ==> o.topic@ == reply_topic(topic@) && final(self).is_idle()
                && final(self).last_id() == old(self).last_id(),
            r matches Step::Send(_, h) ==> h == old(self).commands()[command_name(topic@)]
                && final(self).pending_reply() == Some(reply_topic(topic@))
                && final(self).last_id() == old(self).last_id() + 1,
            !old(self).commands().contains_key(command_name(topic@)) ==> (r matches Step::Publish(
                o,
            ) && o.payload@ == "{\"status\":501}"@),
            old(self).commands().contains_key(command_name(topic@)) ==> match old(
                self,
            ).commands()[command_name(topic@)] {
                Handler::HealthCheck => r matches Step::Publish(o) && o.payload@
                    == "{\"status\":200}"@,
                Handler::Version => r matches Step::Publish(o) && o.payload@ == versions_envelope(
                    served_versions(),
                ),
                Handler::Restart => r matches Step::Send(f, _) && f@ == restart_frame(
                    final(self).last_id(),
                ),
                Handler::KeyPress => match params {
                    Err(e) => r matches Step::Publish(o) && o.payload@ == error_envelope(
                        500,
                        e.text(),
                    ),
                    Ok(p) => match p.keyCode {
                        None => r matches Step::Publish(o) && o.payload@ == error_envelope(
                            400,
                            missing_key_text(),
                        ),
                        Some(k) => r matches Step::Send(f, _) && f@ == key_press_frame(
                            final(self).last_id(),
                            key_code(k@) as nat,
                        ),
                    },
                },
            },
    {
        let name = command_name_of(topic);
        let reply = reply_topic_of(topic);
        match self.registry.lookup(&name) {
            None => {
                let payload = settle(dab::respond_not_implemented());
                Step::Publish(Outbound { topic: reply, payload })
            },
            Some(handler) => {
                let action = match handler {
                    Handler::HealthCheck => Action::Respond(health_check::process()),
                    Handler::Version => Action::Respond(version::process()),
                    Handler::Restart => restart::process(&mut self.ids),
                    Handler::KeyPress => key_press::process(params, &mut self.ids),
                };
                match action {
                    Action::Respond(res) => Step::Publish(Outbound { topic: reply, payload: settle(res) }),
                    Action::Call(frame) => {
                        self.pending = Some(reply);
                        Step::Send(frame, handler)
                    },
                }
            },
        }
    }

    /// Takes the outcome of the outstanding call and gives the reply to
    /// publish for it; the bridge is then idle again.
    pub fn complete<R: Response>(&mut self, x: Exchange<R>) -> (r: Outbound)
        requires
            !old(self).is_idle(),
        ensures
            final(self).is_idle(),
            final(self).commands() == old(self).commands(),
            final(self).last_id() == old(self).last_id(),
            Some(r.topic@) == old(self).pending_reply(),
            r.payload@ == match x {
                Exchange::Undecodable(m) => error_envelope(500, m@),
                Exchange::Reply(v) => if v.succeeded() {
                    "{\"status\":200}"@
                } else {
                    error_envelope(500, "RPC request failed: "@ + v.failure_text())
                },
                _ => error_envelope(500, transport_text(x)),
            },
    {
        let topic = match self.pending.take() {
            Some(t) => t,
            None => String::new(),
        };
        let payload = settle(rpc::call_and_respond(x));
        Outbound { topic, payload }
    }
}

} // verus!
