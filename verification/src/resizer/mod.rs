//! Where resized images are kept and how they are named.

use vstd::prelude::*;
use vstd::string::StringExecFns;
use crate::text::{digits, push_digits};

verus! {

/// Width and height, in pixels, that an uploaded image is fitted into.
pub const RESIZED_EDGE: u32 = 250;

/// The name of a resized image: `rsz-`, a random number, `-`, the name of
/// the upload.
pub open spec fn resized_name_spec(random: u64, upload: Seq<char>) -> Seq<char> {
    "rsz-"@ + digits(random as nat) + "-"@ + upload
}

pub fn resized_name(random: u64, upload: &str) -> (name: String)
    ensures
        name@ == resized_name_spec(random, upload@),
{
    let mut name = "rsz-".to_owned();
    push_digits(&mut name, random);
    name.append("-");
    name.append(upload);
    name
}

/// The file a resized image is stored in.
pub fn resized_path(name: &str) -> (path: String)
    ensures
        path@ == "./data/resizer/"@ + name@,
{
    "./data/resizer/".to_owned().concat(name)
}

/// Where a client is sent after an upload, relative to the endpoint.
pub fn resized_location(name: &str) -> (location: String)
    ensures
        location@ == "resizer/"@ + name@,
{
    "resizer/".to_owned().concat(name)
}

} // verus!
