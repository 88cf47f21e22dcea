//! The run loop's parameters and how a batch of commands sets them.

use vstd::prelude::*;

use crate::gmcp::read::command_views;
use crate::gmcp::{Command, CommandType};

verus! {

/// `c` is a decimal digit.
pub open spec fn is_digit(c: char) -> bool {
    '0' <= c && c <= '9'
}

/// The number that the decimal digits `s` write.
pub open spec fn digits_value(s: Seq<char>) -> int
    decreases s.len(),
{
    if s.len() == 0 {
        0
    } else {
        digits_value(s.drop_last()) * 10 + (s.last() as int - '0' as int)
    }
}

/// The `u64` that `s` writes in decimal: an optional `+`, then one or more digits, and
/// nothing else; `None` where `s` is not of that form or the number does not fit.
pub open spec fn unsigned_text_value(s: Seq<char>) -> Option<u64> {
    let d = if s.len() > 0 && s[0] == '+' {
        s.drop_first()
    } else {
        s
    };
    if d.len() > 0 && (forall|i: int| 0 <= i < d.len() ==> is_digit(#[trigger] d[i]))
        && digits_value(d) <= u64::MAX {
        Some(digits_value(d) as u64)
    } else {
        None
    }
}

/// Relies on `<u64 as FromStr>::from_str`, which reads an optional `+` followed by decimal
/// digits and fails on anything else or on overflow.
#[verifier::external_body]
fn parse_u64(s: &str) -> (r: Option<u64>)
    ensures
        r == unsigned_text_value(s@),
{
    s.parse::<u64>().ok()
}

/// Milliseconds per throttle unit.
pub const THROTTLE_UNIT_MS: u64 = 5;

/// The sleep between iterations that a throttle command with argument `data` asks for:
/// five milliseconds per unit, saturating at `u64::MAX`; unreadable arguments count as zero.
pub open spec fn throttle_ms(data: Seq<char>) -> u64 {
    match unsigned_text_value(data) {
        Some(v) => if v as int * 5 > u64::MAX {
            u64::MAX
        } else {
            (v * 5) as u64
        },
        None => 0,
    }
}

/// The parameters that drive the run loop.
pub struct Params {
    pub iteration_sleep_ms: u64,
    pub should_exit: bool,
    pub should_pause: bool,
    pub should_show_default_config: bool,
    pub should_show_example_config: bool,
    pub config_json: String,
}

/// The parameters as values: the configuration document as text.
pub struct ParamsView {
    pub iteration_sleep_ms: u64,
    pub should_exit: bool,
    pub should_pause: bool,
    pub should_show_default_config: bool,
    pub should_show_example_config: bool,
    pub config_json: Seq<char>,
}

impl View for Params {
    type V = ParamsView;

    open spec fn view(&self) -> ParamsView {
        ParamsView {
            iteration_sleep_ms: self.iteration_sleep_ms,
            should_exit: self.should_exit,
            should_pause: self.should_pause,
            should_show_default_config: self.should_show_default_config,
            should_show_example_config: self.should_show_example_config,
            config_json: self.config_json@,
        }
    }
}

/// The parameters before any command: running, no throttle, nothing pending.
pub open spec fn default_params() -> ParamsView {
    ParamsView {
        iteration_sleep_ms: 0,
        should_exit: false,
        should_pause: false,
        should_show_default_config: false,
        should_show_example_config: false,
        config_json: Seq::empty(),
    }
}

/// `p` after the command with type tag `t` and argument `d`; unknown tags change nothing.
pub open spec fn apply_command(p: ParamsView, t: Seq<char>, d: Seq<char>) -> ParamsView {
    if t == CommandType::Stop.spec_str() {
        ParamsView { should_exit: true, ..p }
    } else if t == CommandType::Throttle.spec_str() {
        ParamsView { iteration_sleep_ms: throttle_ms(d), ..p }
    } else if t == CommandType::Pause.spec_str() {
        ParamsView { should_pause: true, ..p }
    } else if t == CommandType::UpdateConfig.spec_str() {
        ParamsView { config_json: d, ..p }
    } else if t == CommandType::ShowDefaultConfig.spec_str() {
        ParamsView { should_show_default_config: true, ..p }
    } else if t == CommandType::ShowExampleConfig.spec_str() {
        ParamsView { should_show_example_config: true, ..p }
    } else {
        p
    }
}

/// The parameters that the commands `cs` (type tag, argument) give, applied in order to the
/// defaults.
pub open spec fn params_after(cs: Seq<(Seq<char>, Seq<char>)>) -> ParamsView
    decreases cs.len(),
{
    if cs.len() == 0 {
        default_params()
    } else {
        apply_command(params_after(cs.drop_last()), cs.last().0, cs.last().1)
    }
}

/// `s` is the tag of command kind `t`.
fn has_tag(s: &String, t: CommandType) -> (r: bool)
    ensures
        r == (s@ == t.spec_str()),
{
    *s == String::from_str(t.as_str())
}

impl Params {
    /// Running, no throttle, nothing pending.
    pub fn new_with_defaults() -> (r: Params)
        ensures
            r@ == default_params(),
    {
        Params {
            iteration_sleep_ms: 0,
            should_exit: false,
            should_pause: false,
            should_show_default_config: false,
            should_show_example_config: false,
            config_json: String::new(),
        }
    }

    /// The parameters that `commands` set, applied in order to the defaults: a later command
    /// overrides an earlier one on the same field.
    pub fn new(commands: &Vec<Command>) -> (r: Params)
        ensures
            r@ == params_after(command_views(commands@)),
    {
        let mut params = Params::new_with_defaults();
        let mut k: usize = 0;
        while k < commands.len()
            invariant
                k <= commands@.len(),
                params@ == params_after(command_views(commands@).subrange(0, k as int)),
            decreases commands@.len() - k,
        {
            let command = &commands[k];
            proof {
                let p = command_views(commands@).subrange(0, k + 1);
                assert(p.drop_last() =~= command_views(commands@).subrange(0, k as int));
                assert(p.last() == (command.command_type@, command.data@));
            }
            if has_tag(&command.command_type, CommandType::Stop) {
                params.should_exit = true;
            } else if has_tag(&command.command_type, CommandType::Throttle) {
                let units = match parse_u64(command.data.as_str()) {
                    Some(v) => v,
                    None => 0,
                };
                params.iteration_sleep_ms = if units > u64::MAX / THROTTLE_UNIT_MS {
                    u64::MAX
                } else {
                    THROTTLE_UNIT_MS * units
                };
            } else if has_tag(&command.command_type, CommandType::Pause) {
                params.should_pause = true;
            } else if has_tag(&command.command_type, CommandType::UpdateConfig) {
                params.config_json = command.data.clone();
            } else if has_tag(&command.command_type, CommandType::ShowDefaultConfig) {
                params.should_show_default_config = true;
            } else if has_tag(&command.command_type, CommandType::ShowExampleConfig) {
                params.should_show_example_config = true;
            }
            k = k + 1;
        }
        assert(command_views(commands@).subrange(0, k as int) =~= command_views(commands@));
        params
    }
}


/// A throttle command whose argument is not a number sets the sleep between iterations to
/// zero.
pub proof fn lemma_unreadable_throttle_is_zero(p: ParamsView, d: Seq<char>)
    requires
        unsigned_text_value(d) is None,
    ensures
        apply_command(p, CommandType::Throttle.spec_str(), d).iteration_sleep_ms == 0,
{
    reveal_strlit("stop");
    reveal_strlit("throttle");
    assert(CommandType::Stop.spec_str().len() != CommandType::Throttle.spec_str().len());
}


/// The run loop reads the control channel on every this many iterations.
pub const POLL_EVERY: u8 = 10;

/// Milliseconds the run loop idles per iteration while paused without a throttle.
pub const PAUSE_SLEEP_MS: u64 = 10;

/// What one iteration of the run loop does.
pub struct Step {
    /// Read the control channel before anything else.
    pub poll_commands: bool,
    /// Take one frame from the capture source.
    pub capture: bool,
    /// Sleep this long at the end of the iteration.
    pub sleep_ms: u64,
    /// The iteration counter for the next iteration.
    pub next_counter: u8,
}

impl Step {
    /// The iteration with counter `counter` under `params`: the control channel is read when
    /// the counter reaches its bound, which starts it over; a frame is taken unless paused;
    /// the sleep is the throttle, else a short idle while paused.
    pub fn plan(params: &Params, counter: u8) -> (r: Step)
        requires
            counter <= POLL_EVERY,
        ensures
            r.poll_commands == (counter == POLL_EVERY),
            r.next_counter == (if counter == POLL_EVERY {
                1
            } else {
                counter + 1
            }),
            r.next_counter <= POLL_EVERY,
            r.capture == !params.should_pause,
            r.sleep_ms == (if params.iteration_sleep_ms > 0 {
                params.iteration_sleep_ms
            } else if params.should_pause {
                PAUSE_SLEEP_MS
            } else {
                0
            }),
    {
        let poll_commands = counter == POLL_EVERY;
        let next_counter = if poll_commands {
            1
        } else {
            counter + 1
        };
        let sleep_ms = if params.iteration_sleep_ms > 0 {
            params.iteration_sleep_ms
        } else if params.should_pause {
            PAUSE_SLEEP_MS
        } else {
            0
        };
        Step { poll_commands, capture: !params.should_pause, sleep_ms, next_counter }
    }
}

} // verus!
