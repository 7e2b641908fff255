//! The record loader's file filter. The loader reads a directory and parses
//! every file whose extension is the recognized data-file suffix; files with
//! any other name are silently skipped. Reading and parsing happen at the
//! caller's edge; the filter decision lives here.

use vstd::prelude::*;
use vstd::string::StrSliceExecFns;

verus! {

/// The recognized data-file suffix.
pub open spec fn json_suffix() -> Seq<char> {
    seq!['.', 'j', 's', 'o', 'n']
}

/// Whether a file name names a data file: it ends in the data-file suffix,
/// with at least one character before it (a name that is nothing but the
/// suffix has no extension at all).
pub open spec fn is_data_file_name(s: Seq<char>) -> bool {
    s.len() >= 6 && s.subrange(s.len() - 5, s.len() as int) == json_suffix()
}

/// Decide whether a directory entry's file name is a data file.
pub fn is_data_file(name: &str) -> (r: bool)
    ensures
        r == is_data_file_name(name@),
{
    let n = name.unicode_len();
    if n < 6 {
        return false;
    }
    let c0 = name.get_char(n - 5);
    let c1 = name.get_char(n - 4);
    let c2 = name.get_char(n - 3);
    let c3 = name.get_char(n - 2);
    let c4 = name.get_char(n - 1);
    let r = c0 == '.' && c1 == 'j' && c2 == 's' && c3 == 'o' && c4 == 'n';
    proof {
        let sub = name@.subrange(name@.len() - 5, name@.len() as int);
        assert(sub.len() == 5);
        assert(sub[0] == c0 && sub[1] == c1 && sub[2] == c2 && sub[3] == c3 && sub[4] == c4);
        assert(json_suffix()[0] == '.' && json_suffix()[1] == 'j' && json_suffix()[2] == 's'
            && json_suffix()[3] == 'o' && json_suffix()[4] == 'n');
        if r {
            assert(sub =~= json_suffix());
        }
    }
    r
}

} // verus!
