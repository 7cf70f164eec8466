//! The three terminal modes of a session and the control sequences that
//! put a client's terminal into each of them.

use vstd::prelude::*;

verus! {

/// Interpret-as-command: the byte that opens every control sequence.
pub const IAC: u8 = 255;

/// The server announces that it takes an option over.
pub const WILL: u8 = 251;

/// The server announces that it leaves an option to the client.
pub const WONT: u8 = 252;

/// The option that governs who echoes typed characters.
pub const ECHO: u8 = 1;

/// The option that governs whether the client sends character by character.
pub const SUPPRESS_GO_AHEAD: u8 = 3;

pub const GOODBYE: &'static str = "\x1b[1;32mGoodbye!\x1b[0m\r\n\r\n";

/// How a session reads its input.
#[derive(PartialEq, Eq, Structural, Clone, Copy, Debug)]
pub enum InputMode {
    /// Keys are commands: no echo at the client, no line buffering.
    Navigation,
    /// Keys are text: echo at the client, line buffering.
    LineInput,
    /// Keys are secret text: no echo at the client, line buffering.
    SecretLineInput,
}

/// What a client's terminal does with typed characters.
#[derive(PartialEq, Eq, Structural, Clone, Copy, Debug)]
pub struct TerminalState {
    /// The client shows what is typed.
    pub echo: bool,
    /// The client collects a line before sending it.
    pub line_buffering: bool,
}

impl InputMode {
    /// The control sequence of the mode: two commands of three bytes each.
    pub open spec fn spec_control_sequence(self) -> Seq<u8> {
        match self {
            InputMode::Navigation => seq![IAC, WILL, ECHO, IAC, WILL, SUPPRESS_GO_AHEAD],
            InputMode::LineInput => seq![IAC, WONT, ECHO, IAC, WONT, SUPPRESS_GO_AHEAD],
            InputMode::SecretLineInput => seq![IAC, WILL, ECHO, IAC, WONT, SUPPRESS_GO_AHEAD],
        }
    }

    /// The state the mode asks of a terminal.
    pub open spec fn preset(self) -> TerminalState {
        match self {
            InputMode::Navigation => TerminalState { echo: false, line_buffering: false },
            InputMode::LineInput => TerminalState { echo: true, line_buffering: true },
            InputMode::SecretLineInput => TerminalState { echo: false, line_buffering: true },
        }
    }

    /// Whether keys are text in this mode.
    pub open spec fn is_text_entry(self) -> bool {
        self != InputMode::Navigation
    }

    /// The bytes to send to the client to put it into the mode.
    pub fn control_sequence(self) -> (bytes: Vec<u8>)
        ensures
            bytes@ == self.spec_control_sequence(),
    {
        let bytes = match self {
            InputMode::Navigation => vec![IAC, WILL, ECHO, IAC, WILL, SUPPRESS_GO_AHEAD],
            InputMode::LineInput => vec![IAC, WONT, ECHO, IAC, WONT, SUPPRESS_GO_AHEAD],
            InputMode::SecretLineInput => vec![IAC, WILL, ECHO, IAC, WONT, SUPPRESS_GO_AHEAD],
        };
        bytes
    }
}

impl TerminalState {
    /// The terminal after one command.
    pub open spec fn obey(self, verb: u8, option: u8) -> TerminalState {
        if option == ECHO && verb == WILL {
            TerminalState { echo: false, ..self }
        } else if option == ECHO && verb == WONT {
            TerminalState { echo: true, ..self }
        } else if option == SUPPRESS_GO_AHEAD && verb == WILL {
            TerminalState { line_buffering: false, ..self }
        } else if option == SUPPRESS_GO_AHEAD && verb == WONT {
            TerminalState { line_buffering: true, ..self }
        } else {
            self
        }
    }

    /// The terminal after the commands in `bytes`; bytes outside a command
    /// change nothing.
    pub open spec fn spec_receive(self, bytes: Seq<u8>) -> TerminalState
        decreases bytes.len(),
    {
        if bytes.len() >= 3 && bytes[0] == IAC {
            self.obey(bytes[1], bytes[2]).spec_receive(bytes.skip(3))
        } else if bytes.len() > 0 {
            self.spec_receive(bytes.skip(1))
        } else {
            self
        }
    }

    /// Plays a client: the terminal after it has received `bytes`.
    pub fn receive(self, bytes: &[u8]) -> (state: TerminalState)
        ensures
            state == self.spec_receive(bytes@),
    {
        let mut state = self;
        let mut i: usize = 0;
        assert(bytes@.skip(0) =~= bytes@);
        while i < bytes.len()
            invariant
                0 <= i <= bytes@.len(),
                state.spec_receive(bytes@.skip(i as int)) == self.spec_receive(bytes@),
            decreases bytes@.len() - i,
        {
            let ghost rest = bytes@.skip(i as int);
            if bytes.len() - i >= 3 && bytes[i] == IAC {
                let verb = bytes[i + 1];
                let option = bytes[i + 2];
                proof {
                    assert(rest.skip(3) =~= bytes@.skip(i + 3));
                }
                if option == ECHO && verb == WILL {
                    state.echo = false;
                } else if option == ECHO && verb == WONT {
                    state.echo = true;
                } else if option == SUPPRESS_GO_AHEAD && verb == WILL {
                    state.line_buffering = false;
                } else if option == SUPPRESS_GO_AHEAD && verb == WONT {
                    state.line_buffering = true;
                }
                i = i + 3;
            } else {
                proof {
                    assert(rest.skip(1) =~= bytes@.skip(i + 1));
                }
                i = i + 1;
            }
        }
        state
    }
}

/// A mode's control sequence puts any terminal into the mode's preset.
pub proof fn lemma_control_sequence_sets_preset(state: TerminalState, mode: InputMode)
    ensures
        state.spec_receive(mode.spec_control_sequence()) == mode.preset(),
{
    let bytes = mode.spec_control_sequence();
    let second = bytes.skip(3);
    let after_first = state.obey(bytes[1], bytes[2]);
    let after_second = after_first.obey(second[1], second[2]);
    assert(after_second.spec_receive(second.skip(3)) == after_second);
    assert(after_first.spec_receive(second) == after_second);
}

/// Sending a mode's control sequence twice leaves the terminal where
/// sending it once does.
pub proof fn lemma_control_sequence_idempotent(state: TerminalState, mode: InputMode)
    ensures
        state.spec_receive(mode.spec_control_sequence()).spec_receive(mode.spec_control_sequence())
            == state.spec_receive(mode.spec_control_sequence()),
{
    lemma_control_sequence_sets_preset(state, mode);
    lemma_control_sequence_sets_preset(mode.preset(), mode);
}

/// The bytes that switch a client to secret text entry.
pub fn enable_secret_mode() -> (bytes: Vec<u8>)
    ensures
        bytes@ == InputMode::SecretLineInput.spec_control_sequence(),
{
    InputMode::SecretLineInput.control_sequence()
}

/// The bytes that switch a client to navigation.
pub fn disable_line_mode() -> (bytes: Vec<u8>)
    ensures
        bytes@ == InputMode::Navigation.spec_control_sequence(),
{
    InputMode::Navigation.control_sequence()
}

/// The bytes that switch a client to echoed text entry.
pub fn enable_line_mode() -> (bytes: Vec<u8>)
    ensures
        bytes@ == InputMode::LineInput.spec_control_sequence(),
{
    InputMode::LineInput.control_sequence()
}

/// The bytes of the farewell a session ends with.
pub fn output_goodbye_message() -> (bytes: Vec<u8>)
    ensures
        bytes@ == vstd::utf8::encode_utf8(GOODBYE@),
{
    GOODBYE.as_bytes_vec()
}

} // verus!
