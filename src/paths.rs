use vstd::prelude::*;

verus! {

/// Where the HIP runtime is assumed to live when nothing says otherwise.
pub const DEFAULT_HIP_PATH: &'static str = "/opt/rocm/hip";

/// Appending one path to another, as `PathBuf::push` does on Unix: an
/// absolute `seg` replaces `base`; otherwise a single `/` separates the two
/// unless `base` is empty or already ends with one.
pub open spec fn path_join(base: Seq<char>, seg: Seq<char>) -> Seq<char> {
    if seg.len() > 0 && seg[0] == '/' {
        seg
    } else if base.len() == 0 || base.last() == '/' {
        base + seg
    } else {
        base + seq!['/'] + seg
    }
}

/// Joins `seg` onto `base`.
pub fn join_path(base: &str, seg: &str) -> (r: String)
    ensures
        r@ == path_join(base@, seg@),
{
    let seg_len = seg.unicode_len();
    if seg_len > 0 && seg.get_char(0) == '/' {
        return String::from_str(seg);
    }
    let n = base.unicode_len();
    let mut r = String::from_str(base);
    if n > 0 && base.get_char(n - 1) != '/' {
        proof {
            reveal_strlit("/");
        }
        r.append("/");
    }
    r.append(seg);
    r
}

} // verus!
