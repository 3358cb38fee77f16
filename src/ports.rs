//! The rules by which the device link picks its ports and judges the
//! connections it made; the link itself does the I/O.
use vstd::prelude::*;

verus! {

/// An output port fits the wanted device where the two names agree on every
/// byte that both have.
pub open spec fn output_fits(wanted: Seq<u8>, port: Seq<u8>) -> bool {
    forall|i: int| 0 <= i < port.len() && i < wanted.len() ==> wanted[i] == port[i]
}

/// An input port fits the wanted name where its first `n` characters are
/// the name.
pub open spec fn input_fits(port: Seq<char>, name: Seq<char>, n: nat) -> bool {
    port.take(if n <= port.len() { n as int } else { port.len() as int }) == name
}

/// A port entry whose name was read and fits `wanted`.
pub open spec fn entry_fits(entry: Option<Vec<u8>>, wanted: Seq<u8>) -> bool {
    match entry {
        Some(n) => output_fits(wanted, n@),
        None => false,
    }
}

/// Whether output port `port` fits the wanted device name.
pub fn output_port_fits(wanted: &[u8], port: &[u8]) -> (r: bool)
    ensures
        r == output_fits(wanted@, port@),
{
    let mut i: usize = 0;
    while i < port.len()
        invariant
            0 <= i <= port@.len(),
            forall|j: int| 0 <= j < i && j < wanted@.len() ==> wanted@[j] == port@[j],
        decreases port@.len() - i,
    {
        if i < wanted.len() && wanted[i] != port[i] {
            return false;
        }
        i = i + 1;
    }
    true
}

/// Whether input port `port` starts with `name`, taking as many characters
/// as `name` has bytes, `n`.
pub fn input_port_fits(port: &[char], name: &[char], n: usize) -> (r: bool)
    ensures
        r == input_fits(port@, name@, n as nat),
{
    let k: usize = if n <= port.len() {
        n
    } else {
        port.len()
    };
    if k != name.len() {
        assert(port@.take(k as int).len() != name@.len());
        return false;
    }
    let mut i: usize = 0;
    while i < k
        invariant
            k == name@.len(),
            k <= port@.len(),
            0 <= i <= k,
            forall|j: int| 0 <= j < i ==> port@[j] == name@[j],
        decreases k - i,
    {
        if port[i] != name[i] {
            assert(port@.take(k as int)[i as int] != name@[i as int]);
            return false;
        }
        i = i + 1;
    }
    assert(port@.take(k as int) =~= name@);
    true
}

/// The first output port that fits `wanted`, of those whose name could be
/// read (`None` stands for a name that could not).
pub fn first_output_port(names: &Vec<Option<Vec<u8>>>, wanted: &[u8]) -> (r: Option<usize>)
    ensures
        r matches Some(i) ==> i < names@.len() && entry_fits(names@[i as int], wanted@),
        forall|j: int|
            0 <= j < names@.len() && (r matches Some(i) ==> j < i) ==> !entry_fits(
                names@[j],
                wanted@,
            ),
{
    let mut i: usize = 0;
    while i < names.len()
        invariant
            0 <= i <= names@.len(),
            forall|j: int| 0 <= j < i ==> !entry_fits(names@[j], wanted@),
        decreases names@.len() - i,
    {
        match &names[i] {
            Some(n) => {
                if output_port_fits(wanted, n.as_slice()) {
                    return Some(i);
                }
            },
            None => {},
        }
        i = i + 1;
    }
    None
}

/// The first input port whose name fits `name` of `n` bytes.
pub fn first_input_port(names: &Vec<Vec<char>>, name: &[char], n: usize) -> (r: Option<usize>)
    ensures
        r matches Some(i) ==> i < names@.len() && input_fits(names@[i as int]@, name@, n as nat),
        forall|j: int|
            0 <= j < names@.len() && (r matches Some(i) ==> j < i) ==> !input_fits(
                names@[j]@,
                name@,
                n as nat,
            ),
{
    let mut i: usize = 0;
    while i < names.len()
        invariant
            0 <= i <= names@.len(),
            forall|j: int| 0 <= j < i ==> !input_fits(names@[j]@, name@, n as nat),
        decreases names@.len() - i,
    {
        if input_port_fits(names[i].as_slice(), name, n) {
            return Some(i);
        }
        i = i + 1;
    }
    None
}

/// Which connections were asked for and failed.
#[derive(Clone, Copy, Debug, PartialEq, Eq, Structural)]
pub enum ConnectionError {
    /// An input connection was asked for alone and failed.
    Input,
    /// An output connection was asked for alone and failed.
    Output,
    /// Both were asked for; the input failed and the output was made.
    InputOnly,
    /// Both were asked for; the output failed and the input was made.
    OutputOnly,
    /// Both were asked for and both failed.
    Both,
}

/// An output connection is made for directions 2 and 3, to a named device.
pub open spec fn wants_output(inout: u8, name_empty: bool) -> bool {
    inout > 1 && !name_empty
}

/// An input connection is made for every direction but 2.
pub open spec fn wants_input(inout: u8) -> bool {
    inout != 2
}

/// Whether to make an output connection for direction `inout`.
pub fn make_output(inout: u8, name_empty: bool) -> (r: bool)
    ensures
        r == wants_output(inout, name_empty),
{
    inout > 1 && !name_empty
}

/// Whether to make an input connection for direction `inout`.
pub fn make_input(inout: u8) -> (r: bool)
    ensures
        r == wants_input(inout),
{
    inout != 2
}

/// Judges the connections made for direction `inout` (1 input, 2 output,
/// 3 both): `Ok` with the connections to keep, (input, output), or the
/// error that names what failed.
pub fn connection_outcome(inout: u8, got_in: bool, got_out: bool) -> (r: Result<
    (bool, bool),
    ConnectionError,
>)
    requires
        1 <= inout <= 3,
    ensures
        inout == 1 ==> r == if got_in {
            Ok::<(bool, bool), ConnectionError>((true, false))
        } else {
            Err(ConnectionError::Input)
        },
        inout == 2 ==> r == if got_out {
            Ok::<(bool, bool), ConnectionError>((false, true))
        } else {
            Err(ConnectionError::Output)
        },
        inout == 3 ==> r == if got_in && got_out {
            Ok::<(bool, bool), ConnectionError>((true, true))
        } else if got_out {
            Err(ConnectionError::InputOnly)
        } else if got_in {
            Err(ConnectionError::OutputOnly)
        } else {
            Err(ConnectionError::Both)
        },
{
    if inout == 1 {
        if got_in {
            Ok((true, false))
        } else {
            Err(ConnectionError::Input)
        }
    } else if inout == 2 {
        if got_out {
            Ok((false, true))
        } else {
            Err(ConnectionError::Output)
        }
    } else if got_in && got_out {
        Ok((true, true))
    } else if got_out {
        Err(ConnectionError::InputOnly)
    } else if got_in {
        Err(ConnectionError::OutputOnly)
    } else {
        Err(ConnectionError::Both)
    }
}

} // verus!
