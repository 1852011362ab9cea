//! The experiment-name codec: an issue identity `(project, issue)` is
//! written as one name that the orchestration service carries opaquely, and
//! read back from it when a callback arrives.
use vstd::prelude::*;
use crate::error::BotError;
use crate::text::{
    all_digits, chars_from, chars_of, decimal, is_digit, lemma_decimal_digits, parse_u64,
    parse_u64_chars, push_char, push_decimal, string_of,
};

verus! {

/// `p` with every `/` written as `--`.
pub open spec fn escape(p: Seq<char>) -> Seq<char>
    decreases p.len(),
{
    if p.len() == 0 {
        seq![]
    } else {
        (if p[0] == '/' {
            seq!['-', '-']
        } else {
            seq![p[0]]
        }) + escape(p.drop_first())
    }
}

/// `s` with every `--`, taken from the left without overlap, written as `/`.
pub open spec fn unescape(s: Seq<char>) -> Seq<char>
    decreases s.len(),
{
    if s.len() == 0 {
        seq![]
    } else if s.len() >= 2 && s[0] == '-' && s[1] == '-' {
        seq!['/'] + unescape(s.skip(2))
    } else {
        seq![s[0]] + unescape(s.drop_first())
    }
}

/// The name of the experiment started for issue `issue_id` of `project`.
pub open spec fn experiment_name(project: Seq<char>, issue_id: nat) -> Seq<char> {
    escape(project) + seq!['-'] + decimal(issue_id)
}

/// The index of the last `-` in `s`, or -1 when there is none.
pub open spec fn last_dash(s: Seq<char>) -> int
    decreases s.len(),
{
    if s.len() == 0 {
        -1
    } else if s.last() == '-' {
        s.len() - 1
    } else {
        last_dash(s.drop_last())
    }
}

/// The identity read back from an experiment name: the text after the last
/// `-` is the issue number, the text before it the escaped project path.
pub open spec fn decode_name(name: Seq<char>) -> Option<(Seq<char>, u64)> {
    let k = last_dash(name);
    if k < 0 {
        None
    } else {
        match parse_u64(name.skip(k + 1)) {
            Some(id) => Some((unescape(name.take(k)), id)),
            None => None,
        }
    }
}

/// No hyphen of `p` is followed by another hyphen or by a slash.
pub open spec fn hyphens_stand_alone(p: Seq<char>) -> bool {
    forall|i: int|
        0 <= i < p.len() - 1 && #[trigger] p[i] == '-' ==> p[i + 1] != '-' && p[i + 1] != '/'
}

proof fn lemma_parse_decimal(n: u64)
    ensures
        parse_u64(decimal(n as nat)) == Some(n),
{
    lemma_decimal_digits(n as nat);
    assert(is_digit(decimal(n as nat)[0]));
}

proof fn lemma_last_dash_before_digits(a: Seq<char>, d: Seq<char>)
    requires
        all_digits(d),
    ensures
        last_dash(a + seq!['-'] + d) == a.len(),
    decreases d.len(),
{
    let s = a + seq!['-'] + d;
    if d.len() == 0 {
        assert(s.last() == '-');
    } else {
        assert(is_digit(d[d.len() - 1]));
        assert(s.drop_last() =~= a + seq!['-'] + d.drop_last());
        lemma_last_dash_before_digits(a, d.drop_last());
    }
}

proof fn lemma_unescape_escape(p: Seq<char>)
    requires
        hyphens_stand_alone(p),
    ensures
        unescape(escape(p)) == p,
    decreases p.len(),
{
    if p.len() > 0 {
        let rest = p.drop_first();
        assert(hyphens_stand_alone(rest)) by {
            assert forall|i: int| 0 <= i < rest.len() - 1 && #[trigger] rest[i] == '-' implies rest[i
                + 1] != '-' && rest[i + 1] != '/' by {
                assert(p[i + 1] == '-');
            }
        }
        lemma_unescape_escape(rest);
        let e = escape(p);
        let er = escape(rest);
        if p[0] == '/' {
            assert(e =~= seq!['-', '-'] + er);
            assert(e.skip(2) =~= er);
            assert(unescape(e) =~= seq!['/'] + unescape(er));
        } else {
            assert(e =~= seq![p[0]] + er);
            assert(e.drop_first() =~= er);
            if p[0] == '-' && e.len() >= 2 {
                assert(rest.len() > 0);
                assert(p[1] != '-' && p[1] != '/');
                assert(er =~= (if rest[0] == '/' { seq!['-', '-'] } else { seq![rest[0]] })
                    + escape(rest.drop_first()));
                assert(er[0] == rest[0]);
            }
            assert(unescape(e) =~= seq![p[0]] + unescape(er));
        }
        assert(seq![p[0]] + rest =~= p);
    }
}

/// Reading back the name of an experiment gives the issue it was made for:
/// `parse_experiment_name(generate_experiment_name(p, n))` is `Ok((p, n))` for
/// every path `p` in which no hyphen is followed by another hyphen or by a
/// slash. Paths made of segments of letters and digits joined by single
/// inner hyphens are such paths.
pub proof fn lemma_experiment_name_round_trip(project: Seq<char>, issue_id: u64)
    requires
        hyphens_stand_alone(project),
    ensures
        decode_name(experiment_name(project, issue_id as nat)) == Some((project, issue_id)),
{
    let e = escape(project);
    let d = decimal(issue_id as nat);
    let name = experiment_name(project, issue_id as nat);
    lemma_decimal_digits(issue_id as nat);
    lemma_last_dash_before_digits(e, d);
    lemma_parse_decimal(issue_id);
    assert(name.skip(e.len() as int + 1) =~= d);
    assert(name.take(e.len() as int) =~= e);
    lemma_unescape_escape(project);
}

/// Builds the experiment name for an issue: the project path with each `/`
/// written as `--`, then `-` and the issue number in decimal.
pub fn generate_experiment_name(project: &str, issue_id: u64) -> (r: String)
    ensures
        r@ == experiment_name(project@, issue_id as nat),
{
    let p = chars_of(project);
    let mut r = String::new();
    let mut i: usize = 0;
    assert(p@.skip(0) =~= p@);
    while i < p.len()
        invariant
            0 <= i <= p@.len(),
            escape(p@) == r@ + escape(p@.skip(i as int)),
        decreases p@.len() - i,
    {
        let ghost before = r@;
        assert(p@.skip(i as int).drop_first() =~= p@.skip(i + 1));
        if p[i] == '/' {
            push_char(&mut r, '-');
            push_char(&mut r, '-');
            assert(r@ =~= before + seq!['-', '-']);
        } else {
            push_char(&mut r, p[i]);
            assert(r@ =~= before + seq![p@[i as int]]);
        }
        i = i + 1;
    }
    assert(p@.skip(i as int) =~= Seq::<char>::empty());
    assert(escape(p@) =~= r@);
    push_char(&mut r, '-');
    push_decimal(&mut r, issue_id);
    r
}

/// The index just past the last `-` in `s`, or 0 when there is none.
fn find_last_dash(s: &Vec<char>) -> (k: usize)
    ensures
        k <= s@.len(),
        k == last_dash(s@) + 1,
{
    let n = s.len();
    let mut k: usize = n;
    assert(s@.take(n as int) =~= s@);
    while k > 0 && s[k - 1] != '-'
        invariant
            0 <= k <= n == s@.len(),
            last_dash(s@) == last_dash(s@.take(k as int)),
        decreases k,
    {
        assert(s@.take(k as int).drop_last() =~= s@.take(k - 1));
        k = k - 1;
    }
    if k == 0 {
        assert(s@.take(0) =~= Seq::<char>::empty());
    } else {
        assert(s@.take(k as int).last() == '-');
    }
    k
}

/// The first `end` characters of `s` with each `--` written back as `/`.
fn unescape_prefix(s: &Vec<char>, end: usize) -> (r: String)
    requires
        end <= s@.len(),
    ensures
        r@ == unescape(s@.take(end as int)),
{
    let mut project = String::new();
    let mut i: usize = 0;
    let ghost head = s@.take(end as int);
    assert(head.skip(0) =~= head);
    while i < end
        invariant
            0 <= i <= end <= s@.len(),
            head == s@.take(end as int),
            unescape(head) == project@ + unescape(head.skip(i as int)),
        decreases end - i,
    {
        let ghost before = project@;
        let ghost rest = head.skip(i as int);
        if i + 1 < end && s[i] == '-' && s[i + 1] == '-' {
            assert(rest.skip(2) =~= head.skip(i + 2));
            push_char(&mut project, '/');
            i = i + 2;
            assert(project@ =~= before + seq!['/']);
        } else {
            assert(rest.drop_first() =~= head.skip(i + 1));
            push_char(&mut project, s[i]);
            i = i + 1;
            assert(project@ =~= before + seq![rest[0]]);
        }
    }
    assert(head.skip(i as int) =~= Seq::<char>::empty());
    assert(unescape(head) =~= project@);
    project
}

/// Reads an experiment name back into the project path and the issue number.
/// Fails when the name holds no `-`, or when the text after the last `-` is
/// not an unsigned 64-bit number.
pub fn parse_experiment_name(experiment_name: &str) -> (r: Result<(String, u64), BotError>)
    ensures
        match r {
            Ok((project, issue_id)) => decode_name(experiment_name@) == Some((project@, issue_id)),
            Err(e) => decode_name(experiment_name@) is None && e is Internal,
        },
{
    let s = chars_of(experiment_name);
    let k = find_last_dash(&s);
    if k == 0 {
        let mut m = String::from_str("Invalid experiment name format: ");
        m.append(experiment_name);
        return Err(BotError::Internal(m));
    }
    let digits: Vec<char> = chars_from(s.as_slice(), k);
    let issue_id = match parse_u64_chars(digits.as_slice()) {
        Some(v) => v,
        None => {
            let mut m = String::from_str("Invalid issue ID in experiment name: ");
            let tail_text = string_of(digits.as_slice());
            m.append(tail_text.as_str());
            return Err(BotError::Internal(m));
        },
    };
    let project = unescape_prefix(&s, k - 1);
    Ok((project, issue_id))
}

} // verus!
