//! The pure parts of the log page: choosing which configured log file a
//! request asks for, and wrapping its lines for display.
//!
//! Running the tail command and splitting its output into lines happen at
//! the host's I/O edge.

use vstd::prelude::*;

verus! {

/// Decimal digit?
pub open spec fn is_dec_digit(c: char) -> bool {
    '0' <= c && c <= '9'
}

pub open spec fn dec_digit_val(c: char) -> nat {
    (c as nat - '0' as nat) as nat
}

/// All characters are decimal digits.
pub open spec fn all_dec_digits(s: Seq<char>) -> bool {
    forall|i: int| 0 <= i < s.len() ==> is_dec_digit(#[trigger] s[i])
}

/// The number a digit string denotes.
pub open spec fn dec_value(s: Seq<char>) -> nat
    decreases s.len(),
{
    if s.len() == 0 {
        0
    } else {
        dec_value(s.drop_last()) * 10 + dec_digit_val(s.last())
    }
}

/// A longer digit prefix never denotes a smaller number.
proof fn lemma_dec_value_prefix_le(s: Seq<char>, i: int)
    requires
        0 <= i <= s.len(),
    ensures
        dec_value(s.take(i)) <= dec_value(s),
    decreases s.len() - i,
{
    if i < s.len() {
        lemma_dec_value_prefix_le(s, i + 1);
        assert(s.take(i + 1).drop_last() =~= s.take(i));
        assert(dec_value(s.take(i + 1)) == dec_value(s.take(i)) * 10 + dec_digit_val(
            s.take(i + 1).last(),
        ));
        assert(dec_value(s.take(i)) <= dec_value(s.take(i)) * 10) by (nonlinear_arith);
    } else {
        assert(s.take(i) =~= s);
    }
}

/// Parse the requested log index: a non-empty string of decimal digits
/// whose value fits the platform's word size; anything else is no
/// selection.
pub fn parse_log_index(s: &str) -> (r: Option<usize>)
    ensures
        r is Some <==> s@.len() > 0 && all_dec_digits(s@) && dec_value(s@) <= usize::MAX,
        r matches Some(n) ==> n == dec_value(s@),
{
    let n = s.unicode_len();
    if n == 0 {
        return None;
    }
    let mut acc: usize = 0;
    let mut i: usize = 0;
    while i < n
        invariant
            i <= n,
            n == s@.len(),
            all_dec_digits(s@.take(i as int)),
            acc == dec_value(s@.take(i as int)),
        decreases n - i,
    {
        let c = s.get_char(i);
        if c < '0' || c > '9' {
            proof {
                assert(!is_dec_digit(s@[i as int]));
            }
            return None;
        }
        let d: usize = ((c as u32) - ('0' as u32)) as usize;
        if acc > (usize::MAX - d) / 10 {
            proof {
                let ii = i as int;
                assert(s@.take(ii + 1).drop_last() =~= s@.take(ii));
                assert(dec_value(s@.take(ii + 1)) == acc * 10 + d);
                assert(acc * 10 + d > usize::MAX) by (nonlinear_arith)
                    requires
                        acc > (usize::MAX - d) / 10,
                        d <= 9,
                ;
                lemma_dec_value_prefix_le(s@, ii + 1);
            }
            return None;
        }
        proof {
            let ii = i as int;
            assert(acc * 10 + d <= usize::MAX) by (nonlinear_arith)
                requires
                    acc <= (usize::MAX - d) / 10,
                    d <= 9,
            ;
            assert(s@.take(ii + 1).drop_last() =~= s@.take(ii));
            assert(dec_value(s@.take(ii + 1)) == acc * 10 + d);
        }
        acc = acc * 10 + d;
        i += 1;
    }
    proof {
        assert(s@.take(n as int) =~= s@);
    }
    Some(acc)
}

/// Which of the configured log paths a request's selection picks.
pub open spec fn spec_selected_log(paths: Seq<String>, selected: Option<usize>) -> Seq<char> {
    match selected {
        Some(i) => if i < paths.len() {
            paths[i as int]@
        } else {
            paths[0]@
        },
        None => paths[0]@,
    }
}

/// Pick the requested log path: the selected index when it is valid,
/// else the first configured path.
pub fn select_log_path<'a>(paths: &'a Vec<String>, selected: Option<usize>) -> (r: &'a String)
    requires
        paths@.len() > 0,
    ensures
        r@ == spec_selected_log(paths@, selected),
{
    match selected {
        Some(i) => if i < paths.len() {
            &paths[i]
        } else {
            &paths[0]
        },
        None => &paths[0],
    }
}

/// One displayed log line.
pub open spec fn log_line_rep(line: Seq<char>) -> Seq<char> {
    "<li>"@ + line + "</li>"@
}

/// The displayed log lines, newline-separated.
pub open spec fn log_lines_rep(lines: Seq<Seq<char>>) -> Seq<char>
    decreases lines.len(),
{
    if lines.len() == 0 {
        Seq::empty()
    } else if lines.len() == 1 {
        log_line_rep(lines[0])
    } else {
        log_line_rep(lines[0]) + "\n"@ + log_lines_rep(lines.drop_first())
    }
}

proof fn lemma_log_lines_push(lines: Seq<Seq<char>>, l: Seq<char>)
    ensures
        log_lines_rep(lines.push(l)) == if lines.len() == 0 {
            log_line_rep(l)
        } else {
            log_lines_rep(lines) + "\n"@ + log_line_rep(l)
        },
    decreases lines.len(),
{
    let t = lines.push(l);
    if lines.len() == 0 {
        assert(t.len() == 1);
        assert(t[0] == l);
    } else if lines.len() == 1 {
        assert(t.drop_first() =~= seq![l]);
        assert(log_lines_rep(t.drop_first()) == log_line_rep(l));
    } else {
        assert(t.drop_first() =~= lines.drop_first().push(l));
        lemma_log_lines_push(lines.drop_first(), l);
    }
}

/// The views of the given lines.
pub open spec fn lines_view(lines: Seq<String>) -> Seq<Seq<char>> {
    lines.map_values(|l: String| l@)
}

/// Wrap the log's lines for display: each line becomes a list item, the
/// items are newline-separated, and the whole list sits in one `<ul>`.
pub fn format_log_lines(lines: &Vec<String>) -> (r: String)
    ensures
        r@ == "<ul>"@ + log_lines_rep(lines_view(lines@)) + "</ul>"@,
{
    let ghost all = lines_view(lines@);
    let mut out = String::from_str("<ul>");
    let n = lines.len();
    let mut i: usize = 0;
    while i < n
        invariant
            i <= n,
            n == all.len(),
            all == lines_view(lines@),
            out@ == "<ul>"@ + log_lines_rep(all.take(i as int)),
        decreases n - i,
    {
        proof {
            assert(all[i as int] == lines@[i as int]@);
        }
        if i > 0 {
            out.append("\n");
        }
        out.append("<li>");
        out.append(lines[i].as_str());
        out.append("</li>");
        proof {
            let ii = i as int;
            lemma_log_lines_push(all.take(ii), all[ii]);
            assert(all.take(ii).push(all[ii]) =~= all.take(ii + 1));
            assert(out@ == "<ul>"@ + log_lines_rep(all.take(ii + 1)));
        }
        i += 1;
    }
    proof {
        assert(all.take(n as int) =~= all);
    }
    out.append("</ul>");
    out
}

} // verus!
