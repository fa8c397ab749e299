//! The identity of a chunk: its name within its document and the identifier
//! derived from that name.

use vstd::prelude::*;
use vstd::string::StringExecFns;
use crate::text::{decimal, push_decimal};

verus! {

/// The hyphenated lower-case text of the version-5 (SHA-1, name-based) UUID
/// of `name` in the DNS namespace.
pub uninterp spec fn uuid_v5_dns(name: Seq<char>) -> Seq<char>;

/// The identifier of the chunk called `name`. Calls `uuid::Uuid::new_v5` with
/// `Uuid::NAMESPACE_DNS` and the UTF-8 bytes of `name`, and renders the
/// result with `to_string`. What is claimed of the call is that its result is
/// a function of the name alone; nothing is proved of the hash.
#[verifier::external_body]
pub fn generate_uuid(name: &str) -> (id: String)
    ensures
        id@ == uuid_v5_dns(name@),
{
    uuid::Uuid::new_v5(&uuid::Uuid::NAMESPACE_DNS, name.as_bytes()).to_string()
}

/// The name of chunk `index` of the document `file_name`: the file name, an
/// underscore and the index in decimal.
pub open spec fn chunk_name(file_name: Seq<char>, index: nat) -> Seq<char> {
    file_name + "_"@ + decimal(index)
}

/// Builds the name of chunk `index` of the document `file_name`.
pub fn name_chunk(file_name: &str, index: usize) -> (name: String)
    ensures
        name@ == chunk_name(file_name@, index as nat),
{
    let mut name = String::from_str(file_name);
    name.append("_");
    push_decimal(&mut name, index);
    name
}

} // verus!
