//! The modify command's core. The write path is a stub in this tool: it
//! resolves which file the modification would touch and performs no action.

use vstd::prelude::*;
use vstd::string::StrSliceExecFns;
use vstd::string::StringExecFns;
use crate::format::{dec_digits, push_dec_u32};
use crate::EngineError;

verus! {

/// A modification of one stored item definition.
pub enum Modification {
    Stackable(bool),
}

/// The file name that holds the item with the given id: the id in decimal,
/// followed by the data-file suffix.
pub fn item_file_name(item_id: u32) -> (r: String)
    ensures
        r@ == dec_digits(item_id as nat) + ".json"@,
{
    let mut s = String::new();
    push_dec_u32(&mut s, item_id);
    s.append(".json");
    proof {
        assert(s@ =~= dec_digits(item_id as nat) + ".json"@);
    }
    s
}

/// Apply a modification to the item with the given id under the given
/// directory. A stub: it resolves the target file name and performs no
/// action, so it always succeeds.
pub fn modify(dir: &str, item_id: u32, modification: &Modification) -> (r: Result<
    (),
    EngineError,
>)
    ensures
        r is Ok,
{
    let name = item_file_name(item_id);
    let mut item_path = dir.to_owned();
    item_path.push('/');
    item_path.append(name.as_str());
    let _ = modification;
    let _ = item_path;
    Ok(())
}

} // verus!
