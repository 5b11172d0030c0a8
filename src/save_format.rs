use vstd::prelude::*;
use vstd::string::*;

verus! {

/// `s` with every occurrence of "jpg" replaced by "jpeg", matched from the
/// left without overlap.
pub open spec fn replace_jpg(s: Seq<char>) -> Seq<char>
    decreases s.len(),
{
    if s.len() < 3 {
        s
    } else if s.subrange(0, 3) == seq!['j', 'p', 'g'] {
        seq!['j', 'p', 'e', 'g'] + replace_jpg(s.subrange(3, s.len() as int))
    } else {
        seq![s[0]] + replace_jpg(s.subrange(1, s.len() as int))
    }
}

/// The image format named by a file extension; "jpeg" when there is none.
pub open spec fn format_for(extension: Option<Seq<char>>) -> Seq<char> {
    match extension {
        Some(e) => replace_jpg(e),
        None => seq!['j', 'p', 'e', 'g'],
    }
}

/// The format that an image saved under a file with `extension` is written
/// in: the extension itself, with "jpg" spelled "jpeg"; "jpeg" by default.
pub fn save_format(extension: Option<&str>) -> (r: String)
    ensures
        r@ == format_for(
            match extension {
                Some(e) => Some(e@),
                None => None,
            },
        ),
{
    match extension {
        None => {
            proof {
                reveal_strlit("jpeg");
                assert("jpeg"@ =~= seq!['j', 'p', 'e', 'g']);
            }
            String::from_str("jpeg")
        },
        Some(e) => replace_jpg_in(e),
    }
}

/// Replaces every "jpg" in `s` by "jpeg".
fn replace_jpg_in(s: &str) -> (r: String)
    ensures
        r@ == replace_jpg(s@),
{
    let len = s.unicode_len();
    let mut out = String::new();
    let mut start: usize = 0;
    let mut i: usize = 0;
    proof {
        assert(s@.subrange(0, len as int) =~= s@);
        assert(out@ + s@.subrange(0, 0) =~= Seq::<char>::empty());
    }
    while len - i >= 3
        invariant
            len == s@.len(),
            start <= i <= len,
            replace_jpg(s@) == out@ + s@.subrange(start as int, i as int) + replace_jpg(
                s@.subrange(i as int, len as int),
            ),
        decreases len - i,
    {
        let ghost rest = s@.subrange(i as int, len as int);
        let ghost pending = s@.subrange(start as int, i as int);
        let ghost out0 = out@;
        if s.get_char(i) == 'j' && s.get_char(i + 1) == 'p' && s.get_char(i + 2) == 'g' {
            let ghost tail = s@.subrange(i + 3, len as int);
            proof {
                assert(rest.subrange(0, 3) =~= seq!['j', 'p', 'g']);
                assert(rest.subrange(3, rest.len() as int) =~= tail);
                assert(replace_jpg(rest) == seq!['j', 'p', 'e', 'g'] + replace_jpg(tail));
            }
            out.append(s.substring_char(start, i));
            out.append("jpeg");
            proof {
                reveal_strlit("jpeg");
                assert("jpeg"@ =~= seq!['j', 'p', 'e', 'g']);
                assert(out@ =~= out0 + pending + seq!['j', 'p', 'e', 'g']);
                assert(out0 + pending + (seq!['j', 'p', 'e', 'g'] + replace_jpg(tail))
                    =~= out@ + s@.subrange(i + 3, i + 3) + replace_jpg(tail));
            }
            i = i + 3;
            start = i;
        } else {
            let ghost tail = s@.subrange(i + 1, len as int);
            proof {
                assert(rest.subrange(0, 3) != seq!['j', 'p', 'g']) by {
                    if rest.subrange(0, 3) == seq!['j', 'p', 'g'] {
                        assert(rest.subrange(0, 3)[0] == s@[i as int]);
                        assert(rest.subrange(0, 3)[1] == s@[i + 1]);
                        assert(rest.subrange(0, 3)[2] == s@[i + 2]);
                    }
                }
                assert(rest.subrange(1, rest.len() as int) =~= tail);
                assert(rest[0] == s@[i as int]);
                assert(replace_jpg(rest) == seq![s@[i as int]] + replace_jpg(tail));
                assert(out0 + pending + (seq![s@[i as int]] + replace_jpg(tail)) =~= out0
                    + s@.subrange(start as int, i + 1) + replace_jpg(tail));
            }
            i = i + 1;
        }
    }
    let ghost out0 = out@;
    proof {
        let rest = s@.subrange(i as int, len as int);
        assert(replace_jpg(rest) == rest);
        assert(s@.subrange(start as int, i as int) + rest =~= s@.subrange(start as int, len as int));
    }
    out.append(s.substring_char(start, len));
    proof {
        assert(out@ =~= out0 + s@.subrange(start as int, len as int));
        assert(out0 + s@.subrange(start as int, i as int) + s@.subrange(i as int, len as int)
            =~= out@);
    }
    out
}

} // verus!
