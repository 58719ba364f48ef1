//! Where a command finds its circuit, and how the file is encoded.

use vstd::prelude::*;
use vstd::string::*;

verus! {

/// The encoding of a circuit file.
#[derive(Clone, Copy, Debug, PartialEq, Eq, Structural)]
pub enum CircuitFormat {
    /// The older JSON encoding of a constraint system.
    Json,
    /// The binary encoding, which also carries a table that renumbers wires.
    Binary,
}

/// The name of the binary circuit file that is read when none is given.
pub open spec fn binary_default_name() -> Seq<char> {
    "circuit.r1cs"@
}

/// The name of the JSON circuit file that is read when none is given and no
/// binary one is present.
pub open spec fn json_default_name() -> Seq<char> {
    "circuit.json"@
}

/// The suffix by which a JSON circuit file is recognised.
pub open spec fn json_suffix() -> Seq<char> {
    seq!['j', 's', 'o', 'n']
}

/// `true` where `text` ends with `suffix`.
pub open spec fn ends_with(text: Seq<char>, suffix: Seq<char>) -> bool {
    suffix.len() <= text.len() && text.subrange(text.len() - suffix.len(), text.len() as int)
        == suffix
}

/// The circuit file of a command: the explicit name where one is given,
/// whether or not such a file exists; else the binary default where it
/// exists or where the JSON default does not; else the JSON default.
pub open spec fn resolved_circuit_file(
    explicit: Option<Seq<char>>,
    binary_exists: bool,
    json_exists: bool,
) -> Seq<char> {
    match explicit {
        Some(name) => name,
        None => if binary_exists || !json_exists {
            binary_default_name()
        } else {
            json_default_name()
        },
    }
}

/// The format in which the file called `name` is read.
pub open spec fn format_of(name: Seq<char>) -> CircuitFormat {
    if ends_with(name, json_suffix()) {
        CircuitFormat::Json
    } else {
        CircuitFormat::Binary
    }
}

/// The name of the binary circuit file that is read when none is given.
pub fn binary_default() -> (name: &'static str)
    ensures
        name@ == binary_default_name(),
{
    "circuit.r1cs"
}

/// The name of the JSON circuit file that is read when none is given and no
/// binary one is present.
pub fn json_default() -> (name: &'static str)
    ensures
        name@ == json_default_name(),
{
    "circuit.json"
}

/// Picks the circuit file of a command. `binary_exists` and `json_exists`
/// say whether the two default files are present; an explicit name is
/// returned as it is, and neither flag is looked at.
pub fn resolve_circuit_file(filename: Option<String>, binary_exists: bool, json_exists: bool) -> (name:
    String)
    ensures
        name@ == resolved_circuit_file(
            match filename {
                Some(s) => Some(s@),
                None => None,
            },
            binary_exists,
            json_exists,
        ),
{
    match filename {
        Some(s) => s,
        None => {
            if binary_exists || !json_exists {
                binary_default().to_owned()
            } else {
                json_default().to_owned()
            }
        },
    }
}

/// Tells the format of a circuit file from its name: JSON where the name
/// ends in `json`, binary for every other name.
pub fn circuit_format(filename: &str) -> (format: CircuitFormat)
    ensures
        format == format_of(filename@),
{
    let n: usize = filename.unicode_len();
    if n < 4 {
        return CircuitFormat::Binary;
    }
    let json = filename.get_char(n - 4) == 'j' && filename.get_char(n - 3) == 's'
        && filename.get_char(n - 2) == 'o' && filename.get_char(n - 1) == 'n';
    proof {
        let tail = filename@.subrange(n - 4, n as int);
        assert(tail.len() == 4);
        assert(tail[0] == filename@[n - 4]);
        assert(tail[1] == filename@[n - 3]);
        assert(tail[2] == filename@[n - 2]);
        assert(tail[3] == filename@[n - 1]);
        if json {
            assert(tail =~= json_suffix());
        }
    }
    if json {
        CircuitFormat::Json
    } else {
        CircuitFormat::Binary
    }
}

/// An explicit name is returned unchanged, whatever exists.
pub proof fn lemma_explicit_name_is_kept(name: Seq<char>, binary_exists: bool, json_exists: bool)
    ensures
        resolved_circuit_file(Some(name), binary_exists, json_exists) == name,
{
}

/// Without an explicit name the binary default wins where it exists, the
/// JSON default is taken where only it exists, and the binary default is
/// named where neither exists.
pub proof fn lemma_default_fallback(binary_exists: bool, json_exists: bool)
    ensures
        binary_exists ==> resolved_circuit_file(None, binary_exists, json_exists)
            == binary_default_name(),
        !binary_exists && json_exists ==> resolved_circuit_file(None, binary_exists, json_exists)
            == json_default_name(),
        !binary_exists && !json_exists ==> resolved_circuit_file(None, binary_exists, json_exists)
            == binary_default_name(),
{
}

/// The two default names are read in the formats they are named after.
pub proof fn lemma_default_formats()
    ensures
        format_of(binary_default_name()) == CircuitFormat::Binary,
        format_of(json_default_name()) == CircuitFormat::Json,
{
    reveal_strlit("circuit.r1cs");
    reveal_strlit("circuit.json");
    let b = binary_default_name();
    let j = json_default_name();
    assert(b.len() == 12 && j.len() == 12);
    assert(b.subrange(8, 12)[0] == 'r');
    assert(j.subrange(8, 12) =~= json_suffix());
}

} // verus!
