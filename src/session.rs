use vstd::prelude::*;

verus! {

/// Why a port choice was refused.
#[derive(Debug, Clone, Copy, PartialEq, Eq, Structural)]
pub enum SelectionError {
    /// The input is not a decimal number that fits a `usize`, written as
    /// digits with at most one `+` before them.
    NotANumber,
    /// The number names no port.
    OutOfRange,
    /// The session has connected; its port can no longer change.
    AlreadyConnected,
}

/// Why a session could not connect.
#[derive(Debug, Clone, Copy, PartialEq, Eq, Structural)]
pub enum SessionError {
    /// The session connected before.
    AlreadyConnected,
    /// No input port has been selected.
    NoHardware,
}

/// The decisions of a MIDI input session: which of the driver's ports is
/// selected, and whether the one connection it may make has been made.
pub struct MidiSession {
    port_count: usize,
    selected: Option<usize>,
    connected: bool,
}

impl MidiSession {
    /// The selected port, when there is one, is one of the driver's ports.
    #[verifier::type_invariant]
    spec fn selection_in_range(self) -> bool {
        match self.selected {
            Some(i) => i < self.port_count,
            None => true,
        }
    }

    pub closed spec fn spec_port_count(self) -> nat {
        self.port_count as nat
    }

    pub closed spec fn spec_selected(self) -> Option<usize> {
        self.selected
    }

    pub closed spec fn spec_connected(self) -> bool {
        self.connected
    }

    /// A session over the `port_count` ports that the driver enumerated,
    /// with none selected and no connection made.
    pub fn new(port_count: usize) -> (r: MidiSession)
        ensures
            r.spec_port_count() == port_count,
            r.spec_selected() is None,
            !r.spec_connected(),
    {
        MidiSession { port_count, selected: None, connected: false }
    }

    pub fn port_count(&self) -> (r: usize)
        ensures
            r == self.spec_port_count(),
    {
        self.port_count
    }

    pub fn selected(&self) -> (r: Option<usize>)
        ensures
            r == self.spec_selected(),
            r matches Some(i) ==> i < self.spec_port_count(),
    {
        proof {
            use_type_invariant(self);
        }
        self.selected
    }

    pub fn is_connected(&self) -> (r: bool)
        ensures
            r == self.spec_connected(),
    {
        self.connected
    }

    /// Selects port `index`; refused once connected or when no such port exists.
    pub fn select(&mut self, index: usize) -> (r: Result<usize, SelectionError>)
        ensures
            old(self).spec_connected() ==> r == Err::<usize, SelectionError>(
                SelectionError::AlreadyConnected,
            ),
            !old(self).spec_connected() && index >= old(self).spec_port_count() ==> r == Err::<
                usize,
                SelectionError,
            >(SelectionError::OutOfRange),
            !old(self).spec_connected() && index < old(self).spec_port_count() ==> r == Ok::<
                usize,
                SelectionError,
            >(index),
            r is Ok ==> final(self).spec_selected() == Some(index),
            r is Err ==> final(self).spec_selected() == old(self).spec_selected(),
            final(self).spec_port_count() == old(self).spec_port_count(),
            final(self).spec_connected() == old(self).spec_connected(),
    {
        if self.connected {
            Err(SelectionError::AlreadyConnected)
        } else if index >= self.port_count {
            Err(SelectionError::OutOfRange)
        } else {
            self.selected = Some(index);
            Ok(index)
        }
    }

    /// Makes the session's one connection: hands back the selected port,
    /// after which the session cannot connect again.
    pub fn connect(&mut self) -> (r: Result<usize, SessionError>)
        ensures
            old(self).spec_connected() ==> r == Err::<usize, SessionError>(
                SessionError::AlreadyConnected,
            ),
            !old(self).spec_connected() && old(self).spec_selected() is None ==> r == Err::<
                usize,
                SessionError,
            >(SessionError::NoHardware),
            !old(self).spec_connected() && old(self).spec_selected() is Some ==> r == Ok::<
                usize,
                SessionError,
            >(old(self).spec_selected()->0),
            r is Ok ==> final(self).spec_connected(),
            r is Err ==> final(self).spec_connected() == old(self).spec_connected(),
            final(self).spec_port_count() == old(self).spec_port_count(),
            final(self).spec_selected() == old(self).spec_selected(),
    {
        proof {
            use_type_invariant(&*self);
        }
        if self.connected {
            Err(SessionError::AlreadyConnected)
        } else {
            match self.selected {
                None => Err(SessionError::NoHardware),
                Some(i) => {
                    self.connected = true;
                    Ok(i)
                },
            }
        }
    }
}

pub open spec fn is_digit(c: char) -> bool {
    '0' <= c && c <= '9'
}

pub open spec fn digit_value(c: char) -> int {
    c as int - '0' as int
}

/// The number written by the decimal digits `s`.
pub open spec fn decimal_value(s: Seq<char>) -> int
    decreases s.len(),
{
    if s.len() == 0 {
        0
    } else {
        decimal_value(s.drop_last()) * 10 + digit_value(s.last())
    }
}

/// `s` is one or more decimal digits.
pub open spec fn is_decimal(s: Seq<char>) -> bool {
    s.len() > 0 && forall|i: int| 0 <= i < s.len() ==> is_digit(#[trigger] s[i])
}

/// The port number that the decimal digits `digits` name, if any.
pub open spec fn spec_digits_choice(digits: Seq<char>, port_count: nat) -> Result<usize, SelectionError> {
    if !is_decimal(digits) || decimal_value(digits) > usize::MAX {
        Err(SelectionError::NotANumber)
    } else if decimal_value(digits) >= port_count {
        Err(SelectionError::OutOfRange)
    } else {
        Ok(decimal_value(digits) as usize)
    }
}

/// The input with one leading `+` sign taken off, if it has one.
pub open spec fn unsigned_part(input: Seq<char>) -> Seq<char> {
    if input.len() > 0 && input[0] == '+' {
        input.drop_first()
    } else {
        input
    }
}

/// The port number that an operator's input names, if any: decimal digits,
/// optionally after one `+`.
pub open spec fn spec_port_choice(input: Seq<char>, port_count: nat) -> Result<usize, SelectionError> {
    spec_digits_choice(unsigned_part(input), port_count)
}

proof fn lemma_decimal_value_nonneg(s: Seq<char>)
    requires
        forall|i: int| 0 <= i < s.len() ==> is_digit(#[trigger] s[i]),
    ensures
        decimal_value(s) >= 0,
    decreases s.len(),
{
    if s.len() > 0 {
        lemma_decimal_value_nonneg(s.drop_last());
    }
}

proof fn lemma_decimal_value_grows(s: Seq<char>, n: int)
    requires
        0 <= n <= s.len(),
        forall|i: int| 0 <= i < s.len() ==> is_digit(#[trigger] s[i]),
    ensures
        decimal_value(s.subrange(0, n)) <= decimal_value(s),
    decreases s.len() - n,
{
    if n < s.len() {
        lemma_decimal_value_grows(s, n + 1);
        let t = s.subrange(0, n + 1);
        assert(t.drop_last() =~= s.subrange(0, n));
        assert forall|i: int| 0 <= i < n implies is_digit(#[trigger] s.subrange(0, n)[i]) by {
            assert(s.subrange(0, n)[i] == s[i]);
        };
        lemma_decimal_value_nonneg(s.subrange(0, n));
    } else {
        assert(s.subrange(0, n) =~= s);
    }
}

/// Reads a port number typed by the operator (surrounding whitespace already
/// trimmed), digits optionally after one `+`, and checks it against the
/// number of ports.
pub fn parse_port_choice(input: &str, port_count: usize) -> (r: Result<usize, SelectionError>)
    ensures
        r == spec_port_choice(input@, port_count as nat),
{
    let n = input.unicode_len();
    if n > 0 && input.get_char(0) == '+' {
        let digits = input.substring_char(1, n);
        assert(digits@ =~= input@.drop_first());
        parse_digits(digits, port_count)
    } else {
        parse_digits(input, port_count)
    }
}

fn parse_digits(input: &str, port_count: usize) -> (r: Result<usize, SelectionError>)
    ensures
        r == spec_digits_choice(input@, port_count as nat),
{
    let n = input.unicode_len();
    if n == 0 {
        return Err(SelectionError::NotANumber);
    }
    let mut value: usize = 0;
    let mut i: usize = 0;
    while i < n
        invariant
            n == input@.len(),
            0 <= i <= n,
            forall|j: int| 0 <= j < i ==> is_digit(#[trigger] input@[j]),
            value == decimal_value(input@.subrange(0, i as int)),
        decreases n - i,
    {
        let c = input.get_char(i);
        if !('0' <= c && c <= '9') {
            return Err(SelectionError::NotANumber);
        }
        let d = (c as u32 - '0' as u32) as usize;
        let ghost next = input@.subrange(0, i + 1);
        assert(next.drop_last() =~= input@.subrange(0, i as int));
        if value > (usize::MAX - d) / 10 {
            proof {
                assert(decimal_value(next) == value * 10 + d);
                assert(value * 10 + d > usize::MAX) by (nonlinear_arith)
                    requires
                        value > (usize::MAX - d) / 10,
                        d <= 9,
                ;
                if is_decimal(input@) {
                    lemma_decimal_value_grows(input@, i + 1);
                }
            }
            return Err(SelectionError::NotANumber);
        }
        assert(value * 10 + d <= usize::MAX) by (nonlinear_arith)
            requires
                value <= (usize::MAX - d) / 10,
                d <= 9,
        ;
        value = value * 10 + d;
        i = i + 1;
    }
    assert(input@.subrange(0, n as int) =~= input@);
    if value >= port_count {
        Err(SelectionError::OutOfRange)
    } else {
        Ok(value)
    }
}

} // verus!
