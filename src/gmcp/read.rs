//! Reading control commands out of the text that arrives on the control channel.

use vstd::prelude::*;

use crate::gmcp::{Command, MessageType, MESSAGE_TAG_CLOSE, MESSAGE_TAG_OPEN};

verus! {

/// The string member `key` of the JSON object written in `text`, as serde_json reads it:
/// `None` where `text` holds no JSON object, or the member is missing or is not a string.
pub uninterp spec fn json_string_member(text: Seq<char>, key: Seq<char>) -> Option<Seq<char>>;

/// Relies on serde_json::from_str (into serde_json::Value), Value::get and Value::as_str:
/// reads the string member `key` of the JSON object in `text`.
#[verifier::external_body]
fn string_member(text: &str, key: &str) -> (r: Option<String>)
    ensures
        r is Some ==> json_string_member(text@, key@) == Some(r->0@),
        r is None ==> json_string_member(text@, key@) is None,
{
    match serde_json::from_str::<serde_json::Value>(text) {
        Ok(v) => v.get(key).and_then(|m| m.as_str()).map(String::from),
        Err(_) => None,
    }
}

/// The literal that opens an envelope.
pub open spec fn open_tag() -> Seq<char> {
    seq!['<', '<', 'G', 'M', 'C', 'P', '>', '>']
}

/// The literal that closes an envelope.
pub open spec fn close_tag() -> Seq<char> {
    seq!['<', '<', '/', 'G', 'M', 'C', 'P', '>', '>']
}

/// `pat` stands in `t` from position `i` on.
pub open spec fn occurs_at(t: Seq<char>, i: int, pat: Seq<char>) -> bool {
    0 <= i && i + pat.len() <= t.len() && t.subrange(i, i + pat.len()) == pat
}

/// The bodies of the envelopes in `t` from position `i` on. An envelope opens at the first
/// opening tag and closes at the first closing tag after it; scanning resumes after that.
pub open spec fn envelopes_from(t: Seq<char>, i: int) -> Seq<Seq<char>>
    decreases t.len() - i, 1int,
{
    if i < 0 || i >= t.len() {
        Seq::empty()
    } else if occurs_at(t, i, open_tag()) {
        envelope_rest(t, i + 8, i + 8)
    } else {
        envelopes_from(t, i + 1)
    }
}

/// The envelopes of `t` when one is open with its body starting at `start`, and no closing
/// tag starts in `start..j`.
pub open spec fn envelope_rest(t: Seq<char>, start: int, j: int) -> Seq<Seq<char>>
    decreases t.len() - j, 0int,
{
    if j < start || j + 9 > t.len() {
        Seq::empty()
    } else if occurs_at(t, j, close_tag()) {
        seq![t.subrange(start, j)] + envelopes_from(t, j + 9)
    } else {
        envelope_rest(t, start, j + 1)
    }
}

/// The bodies of all envelopes in `t`, in order.
pub open spec fn envelopes(t: Seq<char>) -> Seq<Seq<char>> {
    envelopes_from(t, 0)
}

/// The texts of `v`.
pub open spec fn string_views(v: Seq<String>) -> Seq<Seq<char>> {
    v.map_values(|s: String| s@)
}

/// The (type tag, argument) pairs of `v`.
pub open spec fn command_views(v: Seq<Command>) -> Seq<(Seq<char>, Seq<char>)> {
    v.map_values(|c: Command| (c.command_type@, c.data@))
}

proof fn lemma_tags()
    ensures
        MESSAGE_TAG_OPEN@ == open_tag(),
        MESSAGE_TAG_CLOSE@ == close_tag(),
{
    reveal_strlit("<<GMCP>>");
    reveal_strlit("<</GMCP>>");
    assert(MESSAGE_TAG_OPEN@ =~= open_tag());
    assert(MESSAGE_TAG_CLOSE@ =~= close_tag());
}

fn chars_of(s: &str) -> (r: Vec<char>)
    ensures
        r@ == s@,
{
    let n = s.unicode_len();
    let mut r: Vec<char> = Vec::new();
    let mut i: usize = 0;
    while i < n
        invariant
            n == s@.len(),
            i <= n,
            r@ == s@.subrange(0, i as int),
        decreases n - i,
    {
        r.push(s.get_char(i));
        i = i + 1;
        assert(r@ =~= s@.subrange(0, i as int));
    }
    assert(s@.subrange(0, n as int) =~= s@);
    r
}

fn tag_at(t: &Vec<char>, i: usize, tag: &Vec<char>) -> (r: bool)
    ensures
        r == occurs_at(t@, i as int, tag@),
{
    if i > t.len() || tag.len() > t.len() - i {
        return false;
    }
    let mut k: usize = 0;
    while k < tag.len()
        invariant
            i + tag.len() <= t.len(),
            k <= tag@.len(),
            forall|m: int| 0 <= m < k ==> t@[i + m] == tag@[m],
        decreases tag@.len() - k,
    {
        if t[i + k] != tag[k] {
            assert(t@.subrange(i as int, i + tag@.len())[k as int] != tag@[k as int]);
            return false;
        }
        k = k + 1;
    }
    assert(t@.subrange(i as int, i + tag@.len()) =~= tag@);
    true
}

/// Where the envelope whose body starts at `start` closes.
fn close_position(t: &Vec<char>, close: &Vec<char>, start: usize) -> (r: Option<usize>)
    requires
        close@ == close_tag(),
        start <= t@.len(),
    ensures
        match r {
            Some(j) => {
                &&& start <= j
                &&& j + 9 <= t@.len()
                &&& envelope_rest(t@, start as int, start as int) == seq![
                    t@.subrange(start as int, j as int),
                ] + envelopes_from(t@, j + 9)
            },
            None => envelope_rest(t@, start as int, start as int) == Seq::<Seq<char>>::empty(),
        },
{
    let n = t.len();
    let mut j = start;
    while j < n && n - j >= 9
        invariant
            n == t@.len(),
            close@ == close_tag(),
            start <= j <= n,
            envelope_rest(t@, start as int, start as int) == envelope_rest(
                t@,
                start as int,
                j as int,
            ),
        decreases n - j,
    {
        if tag_at(t, j, close) {
            return Some(j);
        }
        j = j + 1;
    }
    None
}

/// The bodies of the envelopes in `text`, in the order they appear.
pub fn envelope_bodies(text: &str) -> (r: Vec<String>)
    ensures
        string_views(r@) == envelopes(text@),
{
    proof {
        lemma_tags();
    }
    let t = chars_of(text);
    let open = chars_of(MESSAGE_TAG_OPEN);
    let close = chars_of(MESSAGE_TAG_CLOSE);
    let n = t.len();
    let mut r: Vec<String> = Vec::new();
    let mut i: usize = 0;
    while i < n
        invariant
            t@ == text@,
            n == t@.len(),
            open@ == open_tag(),
            close@ == close_tag(),
            i <= n,
            string_views(r@) + envelopes_from(t@, i as int) == envelopes(t@),
        decreases n - i,
    {
        if tag_at(&t, i, &open) {
            let start = i + 8;
            match close_position(&t, &close, start) {
                None => {
                    assert(string_views(r@) =~= envelopes(t@));
                    return r;
                },
                Some(j) => {
                    let body = String::from_str(text.substring_char(start, j));
                    let ghost before = r@;
                    r.push(body);
                    assert(string_views(r@) =~= string_views(before).push(body@));
                    assert(string_views(r@) + envelopes_from(t@, j + 9) =~= string_views(before)
                        + envelope_rest(t@, start as int, start as int));
                    i = j + 9;
                },
            }
        } else {
            i = i + 1;
        }
    }
    assert(envelopes_from(t@, i as int) =~= Seq::<Seq<char>>::empty());
    assert(string_views(r@) =~= envelopes(t@));
    r
}

/// The `type` and `data` string members of the JSON object in `text`, where both are there.
pub open spec fn pair_fields(text: Seq<char>) -> Option<(Seq<char>, Seq<char>)> {
    match (json_string_member(text, "type"@), json_string_member(text, "data"@)) {
        (Some(t), Some(d)) => Some((t, d)),
        _ => None,
    }
}

/// The texts of an optional pair of strings.
pub open spec fn pair_view(p: Option<(String, String)>) -> Option<(Seq<char>, Seq<char>)> {
    match p {
        Some((a, b)) => Some((a@, b@)),
        None => None,
    }
}

fn read_pair(text: &str) -> (r: Option<(String, String)>)
    ensures
        pair_view(r) == pair_fields(text@),
{
    let t = string_member(text, "type");
    let d = string_member(text, "data");
    match (t, d) {
        (Some(t), Some(d)) => Some((t, d)),
        _ => None,
    }
}

/// The error for an envelope whose message cannot be read.
pub open spec fn message_error(body: Seq<char>) -> Seq<char> {
    "Unable to parse Message from input json. Data "@ + body
}

/// The error for a command message whose command cannot be read.
pub open spec fn command_error(data: Seq<char>) -> Seq<char> {
    "Unable to parse Command from input json. Data "@ + data
}

/// What one envelope contributes.
pub enum Outcome {
    /// A command with this type tag and argument.
    Accepted(Seq<char>, Seq<char>),
    /// An error with this text.
    Rejected(Seq<char>),
    /// Nothing: the envelope is of another kind.
    Skipped,
}

/// What an envelope with `body` contributes, given the `type`/`data` pair read from the body
/// and the one read from that `data`.
pub open spec fn outcome(
    body: Seq<char>,
    message: Option<(Seq<char>, Seq<char>)>,
    command: Option<(Seq<char>, Seq<char>)>,
) -> Outcome {
    match message {
        None => Outcome::Rejected(message_error(body)),
        Some((t, d)) => if t == "command"@ {
            match command {
                Some((ct, cd)) => Outcome::Accepted(ct, cd),
                None => Outcome::Rejected(command_error(d)),
            }
        } else {
            Outcome::Skipped
        },
    }
}

/// What the envelope with `body` contributes.
pub open spec fn envelope_outcome(body: Seq<char>) -> Outcome {
    let message = pair_fields(body);
    let command = match message {
        Some((t, d)) => pair_fields(d),
        None => None,
    };
    outcome(body, message, command)
}

/// The commands that the envelopes with `bodies` give, in order.
pub open spec fn commands_of(bodies: Seq<Seq<char>>) -> Seq<(Seq<char>, Seq<char>)>
    decreases bodies.len(),
{
    if bodies.len() == 0 {
        Seq::empty()
    } else {
        let rest = commands_of(bodies.drop_last());
        match envelope_outcome(bodies.last()) {
            Outcome::Accepted(t, d) => rest.push((t, d)),
            _ => rest,
        }
    }
}

/// The errors that the envelopes with `bodies` give, in order.
pub open spec fn errors_of(bodies: Seq<Seq<char>>) -> Seq<Seq<char>>
    decreases bodies.len(),
{
    if bodies.len() == 0 {
        Seq::empty()
    } else {
        let rest = errors_of(bodies.drop_last());
        match envelope_outcome(bodies.last()) {
            Outcome::Rejected(e) => rest.push(e),
            _ => rest,
        }
    }
}

/// What a driver of the run loop offers to code that takes part in it.
pub trait EventLoopArgs {
    fn get_command(&self) -> Command;

    fn set_command(&self, new_command: Command);

    fn should_exit(&self) -> bool;

    fn set_is_ready_to_exit(&self, is_ready_to_exit: bool);

    fn get_poll_interval_ms(&self) -> u64;
}

/// The commands read from one piece of control-channel text, and the errors met on the way.
pub struct InputContainer {
    pub commands: Vec<Command>,
    pub errors: Vec<String>,
}

impl InputContainer {
    /// The commands of the envelopes in `input_data`, in order, and an error for each
    /// envelope whose message or command could not be read.
    pub fn new(input_data: &str) -> (r: InputContainer)
        ensures
            command_views(r.commands@) == commands_of(envelopes(input_data@)),
            string_views(r.errors@) == errors_of(envelopes(input_data@)),
    {
        let bodies = envelope_bodies(input_data);
        let mut r = InputContainer { commands: Vec::new(), errors: Vec::new() };
        let mut k: usize = 0;
        while k < bodies.len()
            invariant
                k <= bodies@.len(),
                string_views(bodies@) == envelopes(input_data@),
                command_views(r.commands@) == commands_of(string_views(bodies@).subrange(0, k as int)),
                string_views(r.errors@) == errors_of(string_views(bodies@).subrange(0, k as int)),
            decreases bodies@.len() - k,
        {
            let body = bodies[k].as_str();
            let message = read_pair(body);
            let command = match &message {
                Some((_t, d)) => read_pair(d.as_str()),
                None => None,
            };
            r.absorb(body, message, command);
            proof {
                let all = string_views(bodies@);
                let p = all.subrange(0, k + 1);
                assert(p.drop_last() =~= all.subrange(0, k as int));
                assert(p.last() == body@);
            }
            k = k + 1;
        }
        proof {
            assert(string_views(bodies@).subrange(0, k as int) =~= string_views(bodies@));
        }
        r
    }

    /// Records what the envelope with `body` contributes, given the `type`/`data` pair read
    /// from the body (`message`) and the one read from that `data` (`command`).
    pub fn absorb(
        &mut self,
        body: &str,
        message: Option<(String, String)>,
        command: Option<(String, String)>,
    )
        ensures
            match outcome(body@, pair_view(message), pair_view(command)) {
                Outcome::Accepted(t, d) => {
                    &&& command_views(final(self).commands@) == command_views(
                        old(self).commands@,
                    ).push((t, d))
                    &&& final(self).errors@ == old(self).errors@
                },
                Outcome::Rejected(e) => {
                    &&& final(self).commands@ == old(self).commands@
                    &&& string_views(final(self).errors@) == string_views(old(self).errors@).push(e)
                },
                Outcome::Skipped => {
                    &&& final(self).commands@ == old(self).commands@
                    &&& final(self).errors@ == old(self).errors@
                },
            },
    {
        let ghost commands_before = self.commands@;
        let ghost errors_before = self.errors@;
        match message {
            None => {
                let mut e = String::from_str("Unable to parse Message from input json. Data ");
                e.append(body);
                self.errors.push(e);
                assert(string_views(self.errors@) =~= string_views(errors_before).push(
                    message_error(body@),
                ));
            },
            Some((t, d)) => {
                let tag = String::from_str(MessageType::Command.as_str());
                if t == tag {
                    match command {
                        Some((ct, cd)) => {
                            self.commands.push(Command { command_type: ct, data: cd });
                            assert(command_views(self.commands@) =~= command_views(
                                commands_before,
                            ).push((ct@, cd@)));
                        },
                        None => {
                            let mut e = String::from_str(
                                "Unable to parse Command from input json. Data ",
                            );
                            e.append(d.as_str());
                            self.errors.push(e);
                            assert(string_views(self.errors@) =~= string_views(errors_before).push(
                                command_error(d@),
                            ));
                        },
                    }
                }
            },
        }
    }
}


/// Where one envelope holds a readable command and another cannot be read, the batch gives
/// that one command and one error, whichever of the two comes first.
pub proof fn lemma_bad_envelope_spares_good(good: Seq<char>, bad: Seq<char>)
    requires
        envelope_outcome(good) is Accepted,
        envelope_outcome(bad) is Rejected,
    ensures
        commands_of(seq![good, bad]) == seq![
            (envelope_outcome(good)->Accepted_0, envelope_outcome(good)->Accepted_1),
        ],
        commands_of(seq![bad, good]) == seq![
            (envelope_outcome(good)->Accepted_0, envelope_outcome(good)->Accepted_1),
        ],
        errors_of(seq![good, bad]).len() == 1,
        errors_of(seq![bad, good]).len() == 1,
{
    let gb = seq![good, bad];
    let bg = seq![bad, good];
    assert(gb.drop_last() =~= seq![good]);
    assert(bg.drop_last() =~= seq![bad]);
    assert(seq![good].drop_last() =~= Seq::<Seq<char>>::empty());
    assert(seq![bad].drop_last() =~= Seq::<Seq<char>>::empty());
    assert(seq![good].last() == good);
    let t = envelope_outcome(good)->Accepted_0;
    let d = envelope_outcome(good)->Accepted_1;
    assert(envelope_outcome(good) == Outcome::Accepted(t, d));
    assert(commands_of(Seq::<Seq<char>>::empty()) =~= Seq::<(Seq<char>, Seq<char>)>::empty());
    assert(errors_of(Seq::<Seq<char>>::empty()) =~= Seq::<Seq<char>>::empty());
    assert(seq![bad].last() == bad);
    assert(gb.last() == bad);
    assert(bg.last() == good);
    assert(commands_of(seq![good]) =~= seq![
        (envelope_outcome(good)->Accepted_0, envelope_outcome(good)->Accepted_1),
    ]);
    assert(commands_of(seq![bad]) =~= Seq::<(Seq<char>, Seq<char>)>::empty());
    assert(commands_of(bg) =~= seq![
        (envelope_outcome(good)->Accepted_0, envelope_outcome(good)->Accepted_1),
    ]);
    assert(errors_of(seq![good]).len() == 0);
    assert(errors_of(seq![bad]).len() == 1);
}

} // verus!
