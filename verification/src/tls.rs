//! The certificate files of the operator interface: which are required.

use vstd::prelude::*;

verus! {

/// The names of the files that must exist before the interface starts.
pub fn required_certificate_files() -> (names: Vec<&'static str>)
    ensures
        names@.len() == 6,
        names@[0]@ == "server.pem"@,
        names@[1]@ == "server-key.pem"@,
        names@[2]@ == "client.pem"@,
        names@[3]@ == "client-key.pem"@,
        names@[4]@ == "ca.pem"@,
        names@[5]@ == "ca-key.pem"@,
{
    let mut names: Vec<&'static str> = Vec::new();
    names.push("server.pem");
    names.push("server-key.pem");
    names.push("client.pem");
    names.push("client-key.pem");
    names.push("ca.pem");
    names.push("ca-key.pem");
    names
}

/// Are all certificates there? `sizes` holds, for each required file in
/// order, its size in bytes, or `None` where it does not exist: every one of
/// the six must exist and be non-empty.
pub fn do_certificates_exist(sizes: &Vec<Option<u64>>) -> (complete: bool)
    ensures
        complete == (sizes@.len() == 6 && forall|i: int|
            0 <= i < sizes@.len() ==> (#[trigger] sizes@[i] matches Some(n) && n > 0)),
{
    if sizes.len() != 6 {
        return false;
    }
    let mut i: usize = 0;
    while i < sizes.len()
        invariant
            i <= sizes@.len(),
            sizes@.len() == 6,
            forall|j: int| 0 <= j < i ==> (#[trigger] sizes@[j] matches Some(n) && n > 0),
        decreases sizes@.len() - i,
    {
        match sizes[i] {
            Some(n) => {
                if n == 0 {
                    return false;
                }
            },
            None => {
                return false;
            },
        }
        i = i + 1;
    }
    true
}

} // verus!
