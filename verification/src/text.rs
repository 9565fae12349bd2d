use vstd::prelude::*;

verus! {

/// The characters that `str::split_whitespace` treats as separators: the
/// Unicode white-space characters, as std documents them.
pub open spec fn is_space(c: char) -> bool {
    c == ' ' || c == '\t' || c == '\n' || c == '\u{b}' || c == '\u{c}' || c == '\r'
        || c == '\u{85}' || c == '\u{a0}' || c == '\u{1680}'
        || ((0x2000 <= c as u32) && (c as u32 <= 0x200a))
        || c == '\u{2028}' || c == '\u{2029}' || c == '\u{202f}' || c == '\u{205f}'
        || c == '\u{3000}'
}

/// Splitting a row into whitespace-delimited columns, written as the scan
/// the executable code performs: `i` is the position, `cur` the column begun
/// so far, `acc` the columns already complete.
pub open spec fn split_scan(s: Seq<char>, i: int, cur: Seq<char>, acc: Seq<Seq<char>>) -> Seq<
    Seq<char>,
>
    decreases s.len() - i,
{
    if i < 0 || i >= s.len() {
        if cur.len() > 0 {
            acc.push(cur)
        } else {
            acc
        }
    } else if is_space(s[i]) {
        split_scan(
            s,
            i + 1,
            Seq::empty(),
            if cur.len() > 0 {
                acc.push(cur)
            } else {
                acc
            },
        )
    } else {
        split_scan(s, i + 1, cur.push(s[i]), acc)
    }
}

/// The whitespace-delimited columns of a row, in order: the maximal runs of
/// non-white-space characters, exactly what `str::split_whitespace` yields.
pub open spec fn split_ws(s: Seq<char>) -> Seq<Seq<char>> {
    split_scan(s, 0, Seq::empty(), Seq::empty())
}

/// The views of a vector of owned columns.
pub open spec fn column_views(v: Seq<String>) -> Seq<Seq<char>> {
    v.map_values(|c: String| c@)
}

fn is_space_char(c: char) -> (b: bool)
    ensures
        b == is_space(c),
{
    c == ' ' || c == '\t' || c == '\n' || c == '\u{b}' || c == '\u{c}' || c == '\r'
        || c == '\u{85}' || c == '\u{a0}' || c == '\u{1680}'
        || ((0x2000 <= c as u32) && (c as u32 <= 0x200a))
        || c == '\u{2028}' || c == '\u{2029}' || c == '\u{202f}' || c == '\u{205f}'
        || c == '\u{3000}'
}

/// Split a row on runs of white space into its columns.
pub fn split_fields(s: &str) -> (r: Vec<String>)
    ensures
        column_views(r@) == split_ws(s@),
{
    let n = s.unicode_len();
    let mut acc: Vec<String> = Vec::new();
    let mut i: usize = 0;
    let mut start: usize = 0;
    let mut in_column: bool = false;
    proof {
        assert(column_views(acc@) =~= Seq::<Seq<char>>::empty());
    }
    while i < n
        invariant
            n == s@.len(),
            i <= n,
            in_column ==> start < i,
            split_ws(s@) == split_scan(
                s@,
                i as int,
                if in_column {
                    s@.subrange(start as int, i as int)
                } else {
                    Seq::empty()
                },
                column_views(acc@),
            ),
        decreases n - i,
    {
        let ghost pre_cur: Seq<char> = if in_column {
            s@.subrange(start as int, i as int)
        } else {
            Seq::empty()
        };
        let ghost pre_acc: Seq<Seq<char>> = column_views(acc@);
        let c = s.get_char(i);
        if is_space_char(c) {
            proof {
                assert(split_scan(s@, i as int, pre_cur, pre_acc) == split_scan(
                    s@,
                    i as int + 1,
                    Seq::empty(),
                    if pre_cur.len() > 0 {
                        pre_acc.push(pre_cur)
                    } else {
                        pre_acc
                    },
                ));
            }
            if in_column {
                let col = s.substring_char(start, i).to_owned();
                proof {
                    assert(column_views(acc@.push(col)) =~= column_views(acc@).push(col@));
                }
                acc.push(col);
                in_column = false;
            }
        } else {
            proof {
                assert(split_scan(s@, i as int, pre_cur, pre_acc) == split_scan(
                    s@,
                    i as int + 1,
                    pre_cur.push(s@[i as int]),
                    pre_acc,
                ));
            }
            if !in_column {
                start = i;
                in_column = true;
                proof {
                    assert(s@.subrange(i as int, i as int) =~= Seq::<char>::empty());
                }
            }
            proof {
                assert(s@.subrange(start as int, i as int).push(s@[i as int]) =~= s@.subrange(
                    start as int,
                    i as int + 1,
                ));
            }
        }
        i = i + 1;
    }
    if in_column {
        let col = s.substring_char(start, n).to_owned();
        proof {
            assert(column_views(acc@.push(col)) =~= column_views(acc@).push(col@));
        }
        acc.push(col);
    }
    acc
}

} // verus!
