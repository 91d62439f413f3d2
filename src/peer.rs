use vstd::prelude::*;

verus! {

/// What `{:?}` prints for a string: the string quoted, with escapes.
pub uninterp spec fn debug_quoted(s: Seq<char>) -> Seq<char>;

/// Relies on `<str as Debug>::fmt`, which prints the string between double
/// quotes with its special characters escaped; the text depends on the string
/// alone.
#[verifier::external_body]
fn quote(s: &str) -> (r: String)
    ensures
        r@ == debug_quoted(s@),
{
    format!("{s:?}")
}

/// The decimal digit `d`.
pub open spec fn digit_char(d: nat) -> char {
    if d == 0 { '0' }
    else if d == 1 { '1' }
    else if d == 2 { '2' }
    else if d == 3 { '3' }
    else if d == 4 { '4' }
    else if d == 5 { '5' }
    else if d == 6 { '6' }
    else if d == 7 { '7' }
    else if d == 8 { '8' }
    else { '9' }
}

/// The decimal notation of `n`, without leading zeros.
pub open spec fn decimal(n: nat) -> Seq<char>
    decreases n,
{
    if n < 10 {
        seq![digit_char(n)]
    } else {
        decimal(n / 10) + seq![digit_char(n % 10)]
    }
}

/// The decimal notation of a signed number.
pub open spec fn signed_decimal(v: int) -> Seq<char> {
    if v < 0 {
        seq!['-'] + decimal((-v) as nat)
    } else {
        decimal(v as nat)
    }
}

/// How the process is named: its pid and quoted executable, its pid alone, or
/// `<unknown>` when not even the pid is known.
pub open spec fn process_text(pid: Option<i32>, quoted_exe: Option<Seq<char>>) -> Seq<char> {
    match pid {
        None => "<unknown>"@,
        Some(p) => match quoted_exe {
            Some(q) => signed_decimal(p as int) + " ("@ + q + ")"@,
            None => signed_decimal(p as int) + " (unknown)"@,
        },
    }
}

/// The description of a connecting process.
pub open spec fn peer_text(uid: u32, pid: Option<i32>, quoted_exe: Option<Seq<char>>) -> Seq<char> {
    "Process "@ + process_text(pid, quoted_exe) + " of user "@ + decimal(uid as nat)
}

fn digit_str(d: u64) -> (r: &'static str)
    requires
        d < 10,
    ensures
        r@ == seq![digit_char(d as nat)],
{
    proof {
        reveal_strlit("0");
        reveal_strlit("1");
        reveal_strlit("2");
        reveal_strlit("3");
        reveal_strlit("4");
        reveal_strlit("5");
        reveal_strlit("6");
        reveal_strlit("7");
        reveal_strlit("8");
        reveal_strlit("9");
    }
    if d == 0 { "0" }
    else if d == 1 { "1" }
    else if d == 2 { "2" }
    else if d == 3 { "3" }
    else if d == 4 { "4" }
    else if d == 5 { "5" }
    else if d == 6 { "6" }
    else if d == 7 { "7" }
    else if d == 8 { "8" }
    else { "9" }
}

/// Appends the decimal notation of `n` to `s`.
pub fn push_decimal(s: &mut String, n: u64)
    ensures
        final(s)@ == old(s)@ + decimal(n as nat),
    decreases n,
{
    if n >= 10 {
        push_decimal(s, n / 10);
    }
    s.append(digit_str(n % 10));
    proof {
        if n >= 10 {
            assert(old(s)@ + decimal(n as nat) =~= old(s)@ + decimal((n / 10) as nat) + seq![
                digit_char((n % 10) as nat),
            ]);
        }
    }
}

/// Appends the decimal notation of a signed number to `s`.
fn push_signed_decimal(s: &mut String, v: i32)
    ensures
        final(s)@ == old(s)@ + signed_decimal(v as int),
{
    let w = v as i64;
    if w < 0 {
        s.append("-");
        proof {
            reveal_strlit("-");
        }
        push_decimal(s, (-w) as u64);
        assert(final(s)@ =~= old(s)@ + signed_decimal(v as int));
    } else {
        push_decimal(s, w as u64);
    }
}

/// Describes a connecting process from its owner, its pid if known, and its
/// executable already quoted as `{:?}` prints it.
pub fn describe_peer_quoted(uid: u32, pid: Option<i32>, quoted_exe: Option<String>) -> (r: String)
    ensures
        r@ == peer_text(
            uid,
            pid,
            match quoted_exe {
                Some(q) => Some(q@),
                None => None,
            },
        ),
{
    let mut s = String::from_str("Process ");
    match pid {
        None => s.append("<unknown>"),
        Some(p) => {
            push_signed_decimal(&mut s, p);
            match quoted_exe {
                Some(q) => {
                    s.append(" (");
                    s.append(q.as_str());
                    s.append(")");
                },
                None => s.append(" (unknown)"),
            }
        },
    }
    s.append(" of user ");
    push_decimal(&mut s, uid as u64);
    s
}

/// Describes a connecting process: `Process <pid> (<exe>) of user <uid>`,
/// with `(unknown)` when the executable could not be found, and `<unknown>`
/// in place of the pid when it is not known. The executable is printed as
/// `{:?}` prints a string.
pub fn describe_peer(uid: u32, pid: Option<i32>, exe: Option<String>) -> (r: String)
    ensures
        r@ == peer_text(
            uid,
            pid,
            match exe {
                Some(e) => Some(debug_quoted(e@)),
                None => None,
            },
        ),
{
    let quoted = match exe {
        Some(e) => Some(quote(e.as_str())),
        None => None,
    };
    describe_peer_quoted(uid, pid, quoted)
}

} // verus!
