//! The "client hello" a viewer sends to the scrcpy server when it connects.

use vstd::prelude::*;
use vstd::string::StringSliceAdditionalSpecFns;

verus! {

/// The hello packet: the version byte, the length of the name in bytes
/// (kept to its low eight bits, as a `u8` keeps it), then the name's
/// UTF-8 bytes.
pub open spec fn hello_message(name: Seq<u8>, version: u8) -> Seq<u8> {
    seq![version, (name.len() % 256) as u8] + name
}

/// Builds the client hello packet for `client_name` at protocol `version`.
pub fn build_hello_message(client_name: &str, version: u8) -> (r: Vec<u8>)
    ensures
        r@ == hello_message(client_name.spec_bytes(), version),
{
    let name_bytes = client_name.as_bytes();
    let name_len: u8 = (name_bytes.len() % 256) as u8;
    let mut buffer: Vec<u8> = Vec::new();
    buffer.push(version);
    buffer.push(name_len);
    let mut i: usize = 0;
    while i < name_bytes.len()
        invariant
            0 <= i <= name_bytes@.len(),
            buffer@ == seq![version, name_len] + name_bytes@.subrange(0, i as int),
        decreases name_bytes@.len() - i,
    {
        buffer.push(name_bytes[i]);
        i = i + 1;
        assert(buffer@ =~= seq![version, name_len] + name_bytes@.subrange(0, i as int));
    }
    assert(name_bytes@.subrange(0, name_bytes@.len() as int) =~= name_bytes@);
    buffer
}

/// The hello starts with the version byte, then the name's length in its
/// low eight bits, and the rest of it is the name; it is two bytes longer
/// than the name.
pub proof fn lemma_hello_layout(name: Seq<u8>, version: u8)
    ensures
        hello_message(name, version).len() == name.len() + 2,
        hello_message(name, version)[0] == version,
        hello_message(name, version)[1] as nat == name.len() % 256,
        hello_message(name, version).subrange(2, name.len() + 2int) == name,
{
    assert(hello_message(name, version).subrange(2, name.len() + 2int) =~= name);
}

} // verus!
