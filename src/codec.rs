use vstd::prelude::*;
use crate::types::CodecError;
use vstd::string::StringSliceAdditionalSpecFns;

verus! {

pub open spec fn is_digit(b: u8) -> bool {
    48 <= b <= 57
}

pub open spec fn all_digits(s: Seq<u8>) -> bool {
    forall|i: int| 0 <= i < s.len() ==> is_digit(#[trigger] s[i])
}

/// Decimal digits of a natural number, most significant first.
pub open spec fn digits(n: nat) -> Seq<u8>
    decreases n,
{
    if n < 10 {
        seq![(48 + n) as u8]
    } else {
        digits(n / 10).push((48 + n % 10) as u8)
    }
}

/// Decimal form of an integer: a `-` before the digits of a negative one.
pub open spec fn decimal(n: int) -> Seq<u8> {
    if n < 0 {
        seq![45u8] + digits((-n) as nat)
    } else {
        digits(n as nat)
    }
}

/// The number that a run of decimal digits stands for.
pub open spec fn digits_value(s: Seq<u8>) -> nat
    decreases s.len(),
{
    if s.len() == 0 {
        0
    } else {
        digits_value(s.drop_last()) * 10 + (s.last() - 48) as nat
    }
}

/// The integer a field holds: digits, with an optional leading `-`.
pub open spec fn int_of(s: Seq<u8>) -> Option<int> {
    if s.len() > 1 && s[0] == 45u8 && all_digits(s.drop_first()) {
        Some(-(digits_value(s.drop_first()) as int))
    } else if s.len() > 0 && all_digits(s) {
        Some(digits_value(s) as int)
    } else {
        None
    }
}

pub proof fn lemma_digits_shape(n: nat)
    ensures
        all_digits(digits(n)),
        digits(n).len() > 0,
        digits_value(digits(n)) == n,
    decreases n,
{
    if n >= 10 {
        lemma_digits_shape(n / 10);
        let d = digits(n / 10);
        assert(digits(n).drop_last() =~= d);
        assert(digits(n).last() == (48 + n % 10) as u8);
        assert((n / 10) * 10 + n % 10 == n) by (nonlinear_arith);
        assert(digits(n).last() - 48 == n % 10);
        assert(digits_value(digits(n)) == digits_value(d) * 10 + n % 10);
    } else {
        assert(digits(n).drop_last() =~= Seq::<u8>::empty());
        assert(digits(n).last() - 48 == n);
        assert(digits_value(digits(n)) == digits_value(Seq::<u8>::empty()) * 10 + n);
    }
}

pub proof fn lemma_decimal_int_of(n: int)
    ensures
        int_of(decimal(n)) == Some(n),
        decimal(n).len() > 0,
{
    if n < 0 {
        lemma_digits_shape((-n) as nat);
        assert(decimal(n).drop_first() =~= digits((-n) as nat));
    } else {
        lemma_digits_shape(n as nat);
        assert(digits(n as nat)[0] != 45u8);
    }
}

pub proof fn lemma_digits_value_prefix(s: Seq<u8>, i: int)
    requires
        all_digits(s),
        0 <= i <= s.len(),
    ensures
        digits_value(s.subrange(0, i)) <= digits_value(s),
    decreases s.len() - i,
{
    if i < s.len() {
        lemma_digits_value_prefix(s, i + 1);
        assert(s.subrange(0, i + 1).drop_last() =~= s.subrange(0, i));
    } else {
        assert(s.subrange(0, i) =~= s);
    }
}

fn push_digits(out: &mut Vec<u8>, n: u128)
    ensures
        final(out)@ == old(out)@ + digits(n as nat),
    decreases n,
{
    if n >= 10 {
        push_digits(out, n / 10);
    }
    out.push(((n % 10) as u8) + 48);
    proof {
        if n >= 10 {
            assert(digits(n as nat) == digits((n / 10) as nat).push((48 + n % 10) as u8));
        }
        assert(final(out)@ =~= old(out)@ + digits(n as nat));
    }
}

/// Appends the decimal form of `n`.
pub fn push_decimal(out: &mut Vec<u8>, n: i128)
    ensures
        final(out)@ == old(out)@ + decimal(n as int),
{
    if n < 0 {
        out.push(45);
        let m: u128 = ((-(n + 1)) as u128) + 1;
        push_digits(out, m);
        assert(final(out)@ =~= old(out)@ + decimal(n as int));
    } else {
        push_digits(out, n as u128);
    }
}

/// Value of the digits `s[start..end]`, or `None` above `limit`.
pub(crate) fn digits_value_upto(s: &[u8], start: usize, end: usize, limit: u128) -> (r: Option<u128>)
    requires
        start < end <= s@.len(),
        all_digits(s@.subrange(start as int, end as int)),
        limit <= u128::MAX / 10 - 10,
    ensures
        r == (if digits_value(s@.subrange(start as int, end as int)) <= limit {
            Some(digits_value(s@.subrange(start as int, end as int)) as u128)
        } else {
            None::<u128>
        }),
{
    let ghost whole = s@.subrange(start as int, end as int);
    let mut acc: u128 = 0;
    let mut i: usize = start;
    while i < end
        invariant
            start <= i <= end,
            end <= s@.len(),
            whole == s@.subrange(start as int, end as int),
            all_digits(whole),
            acc == digits_value(s@.subrange(start as int, i as int)),
            acc <= limit,
            limit <= u128::MAX / 10 - 10,
        decreases end - i,
    {
        let d = s[i];
        assert(whole[i - start] == d);
        assert(s@.subrange(start as int, i + 1).drop_last() =~= s@.subrange(start as int, i as int));
        acc = acc * 10 + (d - 48) as u128;
        i = i + 1;
        if acc > limit {
            proof {
                assert(s@.subrange(start as int, i as int) =~= whole.subrange(0, i - start));
                lemma_digits_value_prefix(whole, i - start);
            }
            return None;
        }
    }
    assert(s@.subrange(start as int, i as int) =~= whole);
    Some(acc)
}

/// The integer a numeric field holds, where it fits an `i64`.
pub open spec fn int_field(s: Seq<u8>) -> Option<int> {
    match int_of(s) {
        Some(v) => if i64::MIN <= v <= i64::MAX {
            Some(v)
        } else {
            None
        },
        None => None,
    }
}

/// Reads a numeric field: digits with an optional leading `-`.
pub fn decode_int(f: &[u8]) -> (r: Option<i64>)
    ensures
        r matches Some(v) ==> int_field(f@) == Some(v as int),
        r is None ==> int_field(f@) is None,
{
    let n = f.len();
    if n > 1 && f[0] == 45 {
        let mut k: usize = 1;
        while k < n
            invariant
                1 <= k <= n,
                n == f@.len(),
                f@[0] == 45u8,
                forall|j: int| 1 <= j < k ==> is_digit(#[trigger] f@[j]),
            decreases n - k,
        {
            if !(48 <= f[k] && f[k] <= 57) {
                assert(!all_digits(f@.drop_first())) by {
                    assert(f@.drop_first()[k - 1] == f@[k as int]);
                }
                assert(!is_digit(f@[0]));
                return None;
            }
            k = k + 1;
        }
        assert(f@.subrange(1, n as int) =~= f@.drop_first());
        match digits_value_upto(f, 1, n, 9223372036854775808) {
            Some(v) => Some((0 - (v as i128)) as i64),
            None => None,
        }
    } else if n > 0 {
        let mut k: usize = 0;
        while k < n
            invariant
                0 <= k <= n,
                n == f@.len(),
                !(n > 1 && f@[0] == 45u8),
                forall|j: int| 0 <= j < k ==> is_digit(#[trigger] f@[j]),
            decreases n - k,
        {
            if !(48 <= f[k] && f[k] <= 57) {
                assert(!is_digit(f@[k as int]));
                return None;
            }
            k = k + 1;
        }
        assert(f@.subrange(0, n as int) =~= f@);
        if n > 1 {
            assert(!is_digit(45u8));
        }
        match digits_value_upto(f, 0, n, 9223372036854775807) {
            Some(v) => Some(v as i64),
            None => None,
        }
    } else {
        None
    }
}

/// The bytes between the double quotes that enclose a string field.
pub open spec fn unquote(s: Seq<u8>) -> Option<Seq<u8>> {
    if s.len() >= 2 && s[0] == 34u8 && s.last() == 34u8 {
        Some(s.subrange(1, s.len() - 1))
    } else {
        None
    }
}

/// Reads a string field written between double quotes.
pub fn decode_str(f: &[u8]) -> (r: Option<Vec<u8>>)
    ensures
        r matches Some(v) ==> unquote(f@) == Some(v@),
        r is None ==> unquote(f@) is None,
{
    let n = f.len();
    if n >= 2 && f[0] == 34 && f[n - 1] == 34 {
        let mut v: Vec<u8> = Vec::new();
        let mut k: usize = 1;
        while k < n - 1
            invariant
                1 <= k <= n - 1,
                n == f@.len(),
                n >= 2,
                v@ == f@.subrange(1, k as int),
            decreases n - 1 - k,
        {
            v.push(f[k]);
            k = k + 1;
            assert(v@ =~= f@.subrange(1, k as int));
        }
        Some(v)
    } else {
        None
    }
}

/// Splits a record at the commas that stand outside double quotes, from
/// position `i` on, with the field so far in `cur` and the fields before it
/// in `acc`.
pub open spec fn split_from(
    s: Seq<u8>,
    i: int,
    cur: Seq<u8>,
    inq: bool,
    acc: Seq<Seq<u8>>,
) -> Seq<Seq<u8>>
    decreases s.len() - i,
{
    if i >= s.len() {
        acc.push(cur)
    } else if s[i] == 44u8 && !inq {
        split_from(s, i + 1, Seq::empty(), inq, acc.push(cur))
    } else if s[i] == 34u8 {
        split_from(s, i + 1, cur.push(s[i]), !inq, acc)
    } else {
        split_from(s, i + 1, cur.push(s[i]), inq, acc)
    }
}

/// The fields of a record, in order; quoted commas do not split.
pub open spec fn fields(s: Seq<u8>) -> Seq<Seq<u8>> {
    split_from(s, 0, Seq::empty(), false, Seq::empty())
}

pub open spec fn views(v: Seq<Vec<u8>>) -> Seq<Seq<u8>> {
    v.map_values(|x: Vec<u8>| x@)
}

/// Splits a record into its fields.
pub fn split_fields(s: &[u8]) -> (r: Vec<Vec<u8>>)
    ensures
        views(r@) == fields(s@),
{
    let mut acc: Vec<Vec<u8>> = Vec::new();
    let mut cur: Vec<u8> = Vec::new();
    let mut inq = false;
    let mut i: usize = 0;
    assert(views(acc@) =~= Seq::<Seq<u8>>::empty());
    assert(cur@ =~= Seq::<u8>::empty());
    while i < s.len()
        invariant
            i <= s@.len(),
            fields(s@) == split_from(s@, i as int, cur@, inq, views(acc@)),
        decreases s@.len() - i,
    {
        let b = s[i];
        if b == 44 && !inq {
            let ghost before = acc@;
            let done = cur;
            cur = Vec::new();
            acc.push(done);
            assert(views(acc@) =~= views(before).push(done@));
        } else if b == 34 {
            cur.push(b);
            inq = !inq;
        } else {
            cur.push(b);
        }
        i = i + 1;
    }
    let ghost before = acc@;
    let last = cur;
    acc.push(last);
    assert(views(acc@) =~= views(before).push(last@));
    acc
}

/// One argument of a command as the wire carries it.
pub enum Arg {
    /// A number, written in decimal.
    Int(i128),
    /// A string, written between double quotes.
    Str(Vec<u8>),
    /// Bytes written as they are: a textual enum literal with its quotes, a payload.
    Raw(Vec<u8>),
    /// A position written empty: an absent nullable value or a reserved slot.
    Empty,
    /// An omitted optional argument: at the end it vanishes with its comma.
    Absent,
}

/// What an argument is, as plain values.
pub enum ArgV {
    Int(int),
    Str(Seq<u8>),
    Raw(Seq<u8>),
    Empty,
    Absent,
}

impl View for Arg {
    type V = ArgV;

    open spec fn view(&self) -> ArgV {
        match self {
            Arg::Int(n) => ArgV::Int(*n as int),
            Arg::Str(s) => ArgV::Str(s@),
            Arg::Raw(s) => ArgV::Raw(s@),
            Arg::Empty => ArgV::Empty,
            Arg::Absent => ArgV::Absent,
        }
    }
}

pub open spec fn arg_views(args: Seq<Arg>) -> Seq<ArgV> {
    args.map_values(|a: Arg| a@)
}

pub open spec fn quoted(s: Seq<u8>) -> Seq<u8> {
    seq![34u8] + s + seq![34u8]
}

/// The bytes that stand for one argument.
pub open spec fn arg_bytes(a: ArgV) -> Seq<u8> {
    match a {
        ArgV::Int(n) => decimal(n),
        ArgV::Str(s) => quoted(s),
        ArgV::Raw(s) => s,
        ArgV::Empty => Seq::empty(),
        ArgV::Absent => Seq::empty(),
    }
}

/// The arguments without the omitted ones at the end.
pub open spec fn trim_absent(args: Seq<ArgV>) -> Seq<ArgV>
    decreases args.len(),
{
    if args.len() > 0 && args.last() is Absent {
        trim_absent(args.drop_last())
    } else {
        args
    }
}

/// The arguments' bytes, separated by commas.
pub open spec fn join(args: Seq<ArgV>) -> Seq<u8>
    decreases args.len(),
{
    if args.len() == 0 {
        Seq::empty()
    } else if args.len() == 1 {
        arg_bytes(args[0])
    } else {
        arg_bytes(args[0]) + seq![44u8] + join(args.drop_first())
    }
}

/// A whole request line: `{cmd_prefix}{prefix}{=}{args}{termination}`, where
/// `=` stands only where `value_sep` holds and an argument is left.
pub open spec fn request_bytes(
    cmd_prefix: Seq<u8>,
    prefix: Seq<u8>,
    args: Seq<ArgV>,
    termination: Seq<u8>,
    value_sep: bool,
) -> Seq<u8> {
    let kept = trim_absent(args);
    cmd_prefix + prefix + (if value_sep && kept.len() > 0 {
        seq![61u8]
    } else {
        Seq::empty()
    }) + join(kept) + termination
}

pub fn push_slice(out: &mut Vec<u8>, s: &[u8])
    ensures
        final(out)@ == old(out)@ + s@,
{
    let mut i: usize = 0;
    while i < s.len()
        invariant
            i <= s@.len(),
            out@ == old(out)@ + s@.subrange(0, i as int),
        decreases s@.len() - i,
    {
        out.push(s[i]);
        i = i + 1;
        assert(out@ =~= old(out)@ + s@.subrange(0, i as int));
    }
    assert(s@.subrange(0, i as int) =~= s@);
}

fn push_arg(out: &mut Vec<u8>, a: &Arg)
    ensures
        final(out)@ == old(out)@ + arg_bytes(a@),
{
    match a {
        Arg::Int(n) => push_decimal(out, *n),
        Arg::Str(v) => {
            out.push(34);
            push_slice(out, v.as_slice());
            out.push(34);
            assert(final(out)@ =~= old(out)@ + arg_bytes(a@));
        },
        Arg::Raw(v) => push_slice(out, v.as_slice()),
        Arg::Empty => {
            assert(final(out)@ =~= old(out)@ + arg_bytes(a@));
        },
        Arg::Absent => {
            assert(final(out)@ =~= old(out)@ + arg_bytes(a@));
        },
    }
}

proof fn lemma_join_push(args: Seq<ArgV>, a: ArgV)
    requires
        args.len() > 0,
    ensures
        join(args.push(a)) == join(args) + seq![44u8] + arg_bytes(a),
    decreases args.len(),
{
    if args.len() == 1 {
        assert(args.push(a).drop_first() =~= seq![a]);
        assert(join(seq![a]) == arg_bytes(seq![a][0]));
        assert(args.push(a)[0] == args[0]);
        assert(join(args.push(a)) =~= join(args) + seq![44u8] + arg_bytes(a));
    } else {
        lemma_join_push(args.drop_first(), a);
        assert(args.push(a).drop_first() =~= args.drop_first().push(a));
        assert(join(args.push(a)) =~= join(args) + seq![44u8] + arg_bytes(a));
    }
}

/// Writes a request line.
pub fn encode_request(
    cmd_prefix: &str,
    prefix: &str,
    args: &Vec<Arg>,
    termination: &str,
    value_sep: bool,
) -> (r: Vec<u8>)
    ensures
        r@ == request_bytes(
            cmd_prefix.spec_bytes(),
            prefix.spec_bytes(),
            arg_views(args@),
            termination.spec_bytes(),
            value_sep,
        ),
{
    let ghost all = arg_views(args@);
    let mut kept: usize = args.len();
    assert(all.subrange(0, kept as int) =~= all);
    while kept > 0 && matches!(args[kept - 1], Arg::Absent)
        invariant
            kept <= args@.len(),
            all == arg_views(args@),
            trim_absent(all) == trim_absent(all.subrange(0, kept as int)),
        decreases kept,
    {
        assert(all.subrange(0, kept as int).drop_last() =~= all.subrange(0, kept - 1));
        assert(all[kept - 1] == args@[kept - 1]@);
        kept = kept - 1;
    }
    assert(trim_absent(all.subrange(0, kept as int)) == all.subrange(0, kept as int));
    let mut out: Vec<u8> = Vec::new();
    push_slice(&mut out, cmd_prefix.as_bytes());
    push_slice(&mut out, prefix.as_bytes());
    if value_sep && kept > 0 {
        out.push(61);
    }
    let ghost head = out@;
    let mut i: usize = 0;
    while i < kept
        invariant
            i <= kept <= args@.len(),
            all == arg_views(args@),
            out@ == head + join(all.subrange(0, i as int)),
        decreases kept - i,
    {
        let ghost before = out@;
        if i > 0 {
            out.push(44);
        }
        push_arg(&mut out, &args[i]);
        proof {
            let pre = all.subrange(0, i as int);
            assert(all.subrange(0, i + 1) =~= pre.push(all[i as int]));
            if i > 0 {
                lemma_join_push(pre, all[i as int]);
            } else {
                assert(join(all.subrange(0, 1)) == arg_bytes(all[0]));
            }
        }
        i = i + 1;
        assert(out@ =~= head + join(all.subrange(0, i as int)));
    }
    push_slice(&mut out, termination.as_bytes());
    assert(out@ =~= request_bytes(
        cmd_prefix.spec_bytes(),
        prefix.spec_bytes(),
        all,
        termination.spec_bytes(),
        value_sep,
    ));
    out
}

/// An argument that reads back as itself: a number that fits an `i64`, a
/// string without double quotes, or an empty position.
pub open spec fn plain_arg(a: ArgV) -> bool {
    match a {
        ArgV::Int(n) => i64::MIN <= n <= i64::MAX,
        ArgV::Str(t) => forall|j: int| 0 <= j < t.len() ==> #[trigger] t[j] != 34u8,
        ArgV::Empty => true,
        _ => false,
    }
}

/// Reads a field as an argument of the same kind as `a`.
pub open spec fn decode_like(a: ArgV, f: Seq<u8>) -> Option<ArgV> {
    match a {
        ArgV::Int(_) => match int_field(f) {
            Some(v) => Some(ArgV::Int(v)),
            None => None,
        },
        ArgV::Str(_) => match unquote(f) {
            Some(v) => Some(ArgV::Str(v)),
            None => None,
        },
        ArgV::Empty => if f.len() == 0 {
            Some(ArgV::Empty)
        } else {
            None
        },
        _ => None,
    }
}

proof fn lemma_walk_plain(s: Seq<u8>, i: int, k: int, cur: Seq<u8>, inq: bool, acc: Seq<Seq<u8>>)
    requires
        0 <= i <= k <= s.len(),
        forall|j: int| i <= j < k ==> #[trigger] s[j] != 34u8 && (inq || s[j] != 44u8),
    ensures
        split_from(s, i, cur, inq, acc) == split_from(s, k, cur + s.subrange(i, k), inq, acc),
    decreases k - i,
{
    if i < k {
        lemma_walk_plain(s, i + 1, k, cur.push(s[i]), inq, acc);
        assert(cur.push(s[i]) + s.subrange(i + 1, k) =~= cur + s.subrange(i, k));
    } else {
        assert(cur + s.subrange(i, k) =~= cur);
    }
}

proof fn lemma_walk_arg(s: Seq<u8>, i: int, a: ArgV, acc: Seq<Seq<u8>>)
    requires
        plain_arg(a),
        0 <= i,
        i + arg_bytes(a).len() <= s.len(),
        s.subrange(i, i + arg_bytes(a).len()) == arg_bytes(a),
    ensures
        split_from(s, i, Seq::empty(), false, acc) == split_from(
            s,
            i + arg_bytes(a).len(),
            arg_bytes(a),
            false,
            acc,
        ),
{
    let b = arg_bytes(a);
    let e = Seq::<u8>::empty();
    match a {
        ArgV::Int(n) => {
            let m: nat = if n < 0 { (-n) as nat } else { n as nat };
            lemma_digits_shape(m);
            assert forall|j: int| i <= j < i + b.len() implies #[trigger] s[j] != 34u8 && s[j] != 44u8 by {
                assert(s[j] == b[j - i]);
                if n < 0 {
                    if j > i {
                        assert(b[j - i] == digits(m)[j - i - 1]);
                        assert(is_digit(digits(m)[j - i - 1]));
                    }
                } else {
                    assert(is_digit(digits(m)[j - i]));
                }
            }
            lemma_walk_plain(s, i, i + b.len(), e, false, acc);
            assert(e + s.subrange(i, i + b.len()) =~= b);
        },
        ArgV::Str(t) => {
            assert(s[i] == b[0]);
            assert(e.push(s[i]) =~= seq![34u8]);
            let k = i + 1 + t.len();
            assert forall|j: int| i + 1 <= j < k implies #[trigger] s[j] != 34u8 && (true || s[j] != 44u8) by {
                assert(s[j] == b[j - i]);
                assert(b[j - i] == t[j - i - 1]);
            }
            lemma_walk_plain(s, i + 1, k, seq![34u8], true, acc);
            assert(s[k] == b[k - i]);
            assert(seq![34u8] + s.subrange(i + 1, k) + seq![s[k]] =~= b) by {
                assert(s.subrange(i + 1, k) =~= t) by {
                    assert forall|j: int| 0 <= j < t.len() implies s.subrange(i + 1, k)[j] == t[j] by {
                        assert(s[i + 1 + j] == b[1 + j]);
                    }
                }
            }
            assert((seq![34u8] + s.subrange(i + 1, k)).push(s[k]) =~= b);
        },
        ArgV::Empty => {
            assert(e =~= b);
        },
        _ => {},
    }
}

proof fn lemma_split_join(s: Seq<u8>, i: int, args: Seq<ArgV>, acc: Seq<Seq<u8>>)
    requires
        args.len() > 0,
        forall|k: int| 0 <= k < args.len() ==> plain_arg(#[trigger] args[k]),
        0 <= i <= s.len(),
        s.subrange(i, s.len() as int) == join(args),
    ensures
        split_from(s, i, Seq::empty(), false, acc) == acc + args.map_values(|a: ArgV| arg_bytes(a)),
    decreases args.len(),
{
    let b = arg_bytes(args[0]);
    let rest = s.subrange(i, s.len() as int);
    assert(plain_arg(args[0]));
    if args.len() == 1 {
        assert(rest == b);
        assert(s.subrange(i, i + b.len()) =~= b);
        lemma_walk_arg(s, i, args[0], acc);
        assert(acc + args.map_values(|a: ArgV| arg_bytes(a)) =~= acc.push(b));
    } else {
        let tail = args.drop_first();
        assert(rest == b + seq![44u8] + join(tail));
        assert(s.subrange(i, i + b.len()) =~= b) by {
            assert forall|j: int| 0 <= j < b.len() implies s.subrange(i, i + b.len())[j] == b[j] by {
                assert(s[i + j] == rest[j]);
            }
        }
        lemma_walk_arg(s, i, args[0], acc);
        let k = i + b.len();
        assert(s[k] == rest[b.len() as int]);
        assert(s.subrange(k + 1, s.len() as int) =~= join(tail)) by {
            assert forall|j: int| 0 <= j < join(tail).len() implies s.subrange(k + 1, s.len() as int)[j] == join(tail)[j] by {
                assert(s[k + 1 + j] == rest[b.len() + 1 + j]);
            }
        }
        assert forall|m: int| 0 <= m < tail.len() implies plain_arg(#[trigger] tail[m]) by {
            assert(tail[m] == args[m + 1]);
        }
        lemma_split_join(s, k + 1, tail, acc.push(b));
        assert(acc.push(b) + tail.map_values(|a: ArgV| arg_bytes(a)) =~= acc + args.map_values(|a: ArgV| arg_bytes(a)));
    }
}

/// Encoding and decoding round-trip: the fields of comma-joined plain
/// arguments are the arguments' own bytes, and each field reads back as the
/// argument it came from.
pub proof fn law_args_round_trip(args: Seq<ArgV>)
    requires
        args.len() > 0,
        forall|k: int| 0 <= k < args.len() ==> plain_arg(#[trigger] args[k]),
    ensures
        fields(join(args)).len() == args.len(),
        forall|k: int| 0 <= k < args.len() ==> decode_like(args[k], #[trigger] fields(join(args))[k]) == Some(args[k]),
{
    let s = join(args);
    assert(s.subrange(0, s.len() as int) =~= s);
    lemma_split_join(s, 0, args, Seq::empty());
    assert(Seq::<Seq<u8>>::empty() + args.map_values(|a: ArgV| arg_bytes(a)) =~= args.map_values(|a: ArgV| arg_bytes(a)));
    assert forall|k: int| 0 <= k < args.len() implies decode_like(args[k], #[trigger] fields(join(args))[k]) == Some(args[k]) by {
        let a = args[k];
        assert(plain_arg(a));
        assert(fields(s)[k] == arg_bytes(a));
        match a {
            ArgV::Int(n) => {
                lemma_decimal_int_of(n);
            },
            ArgV::Str(t) => {
                assert(quoted(t).subrange(1, quoted(t).len() - 1) =~= t);
            },
            _ => {},
        }
    }
}

/// Whether two byte strings are equal.
pub fn bytes_eq(a: &[u8], b: &[u8]) -> (r: bool)
    ensures
        r == (a@ == b@),
{
    if a.len() != b.len() {
        return false;
    }
    let mut i: usize = 0;
    while i < a.len()
        invariant
            i <= a@.len(),
            a@.len() == b@.len(),
            a@.subrange(0, i as int) == b@.subrange(0, i as int),
        decreases a@.len() - i,
    {
        if a[i] != b[i] {
            assert(a@[i as int] != b@[i as int]);
            return false;
        }
        assert(a@.subrange(0, i + 1) =~= a@.subrange(0, i as int).push(a@[i as int]));
        assert(b@.subrange(0, i + 1) =~= b@.subrange(0, i as int).push(b@[i as int]));
        i = i + 1;
    }
    assert(a@ =~= a@.subrange(0, i as int));
    assert(b@ =~= b@.subrange(0, i as int));
    true
}

/// Whether `s` begins with `p`.
pub fn starts_with(s: &[u8], p: &[u8]) -> (r: bool)
    ensures
        r == (p@.len() <= s@.len() && s@.subrange(0, p@.len() as int) == p@),
{
    if p.len() > s.len() {
        return false;
    }
    let mut i: usize = 0;
    while i < p.len()
        invariant
            i <= p@.len() <= s@.len(),
            s@.subrange(0, i as int) == p@.subrange(0, i as int),
        decreases p@.len() - i,
    {
        if s[i] != p[i] {
            assert(s@.subrange(0, p@.len() as int)[i as int] != p@[i as int]);
            return false;
        }
        assert(s@.subrange(0, i + 1) =~= s@.subrange(0, i as int).push(s@[i as int]));
        assert(p@.subrange(0, i + 1) =~= p@.subrange(0, i as int).push(p@[i as int]));
        i = i + 1;
    }
    assert(p@ =~= p@.subrange(0, i as int));
    true
}

/// `s` between double quotes.
pub fn quote_bytes(s: &[u8]) -> (r: Vec<u8>)
    ensures
        r@ == quoted(s@),
{
    let mut out: Vec<u8> = Vec::new();
    out.push(34);
    push_slice(&mut out, s);
    out.push(34);
    assert(out@ =~= quoted(s@));
    out
}

/// A copy of `s` in a vector.
pub fn to_vec(s: &[u8]) -> (r: Vec<u8>)
    ensures
        r@ == s@,
{
    let mut out: Vec<u8> = Vec::new();
    push_slice(&mut out, s);
    assert(out@ =~= s@);
    out
}

/// An ordinary command line: `AT`, the prefix, the arguments, `\r\n`.
pub open spec fn at_line(prefix: Seq<u8>, args: Seq<ArgV>) -> Seq<u8> {
    request_bytes("AT".spec_bytes(), prefix, args, "\r\n".spec_bytes(), true)
}

/// Writes an ordinary command line.
pub fn encode_at(prefix: &str, args: &Vec<Arg>) -> (r: Vec<u8>)
    ensures
        r@ == at_line(prefix.spec_bytes(), arg_views(args@)),
{
    encode_request("AT", prefix, args, "\r\n", true)
}

/// The number field `k` of `fs` holds, where it lies in `lo..=hi`.
pub open spec fn num_at(fs: Seq<Seq<u8>>, k: int, lo: int, hi: int) -> Option<int> {
    if 0 <= k < fs.len() {
        match int_field(fs[k]) {
            Some(v) => if lo <= v <= hi {
                Some(v)
            } else {
                None
            },
            None => None,
        }
    } else {
        None
    }
}

/// Reads field `k` as a number in `lo..=hi`.
pub fn decode_num_at(fs: &Vec<Vec<u8>>, k: usize, lo: i64, hi: i64) -> (r: Result<i64, CodecError>)
    ensures
        r matches Ok(v) ==> num_at(views(fs@), k as int, lo as int, hi as int) == Some(v as int),
        r is Err ==> num_at(views(fs@), k as int, lo as int, hi as int) is None,
{
    if k >= fs.len() {
        return Err(CodecError::MissingField(k));
    }
    assert(views(fs@)[k as int] == fs@[k as int]@);
    match decode_int(fs[k].as_slice()) {
        Some(v) => if lo <= v && v <= hi {
            Ok(v)
        } else {
            Err(CodecError::InvalidField(k))
        },
        None => Err(CodecError::InvalidField(k)),
    }
}

/// The string between the double quotes of field `k` of `fs`.
pub open spec fn str_at(fs: Seq<Seq<u8>>, k: int) -> Option<Seq<u8>> {
    if 0 <= k < fs.len() {
        unquote(fs[k])
    } else {
        None
    }
}

/// Reads field `k` as a quoted string.
pub fn decode_str_at(fs: &Vec<Vec<u8>>, k: usize) -> (r: Result<Vec<u8>, CodecError>)
    ensures
        r matches Ok(v) ==> str_at(views(fs@), k as int) == Some(v@),
        r is Err ==> str_at(views(fs@), k as int) is None,
{
    if k >= fs.len() {
        return Err(CodecError::MissingField(k));
    }
    assert(views(fs@)[k as int] == fs@[k as int]@);
    match decode_str(fs[k].as_slice()) {
        Some(v) => Ok(v),
        None => Err(CodecError::InvalidField(k)),
    }
}

/// `s` without the `\r\n` it may end with.
pub open spec fn without_crlf(s: Seq<u8>) -> Seq<u8> {
    if s.len() >= 2 && s[s.len() - 2] == 13u8 && s[s.len() - 1] == 10u8 {
        s.subrange(0, s.len() - 2)
    } else {
        s
    }
}

/// Drops the `\r\n` that `s` may end with.
pub fn trim_crlf(s: &[u8]) -> (r: &[u8])
    ensures
        r@ == without_crlf(s@),
{
    let n = s.len();
    if n >= 2 && s[n - 2] == 13 && s[n - 1] == 10 {
        let r = s.split_at(n - 2).0;
        assert(r@ =~= s@.subrange(0, n - 2));
        r
    } else {
        s
    }
}

/// The payload of a response line `{prefix}: {payload}`: what follows the
/// prefix and `:`, without the spaces before it and a `\r\n` after it.
pub open spec fn response_payload(text: Seq<u8>, prefix: Seq<u8>) -> Option<Seq<u8>> {
    let t = without_crlf(text);
    if prefix.len() < t.len() && t.subrange(0, prefix.len() as int) == prefix && t[prefix.len() as int]
        == 58u8 {
        Some(spaces_dropped(t.subrange(prefix.len() + 1int, t.len() as int)))
    } else {
        None
    }
}

/// `s` without the spaces it begins with.
pub open spec fn spaces_dropped(s: Seq<u8>) -> Seq<u8>
    decreases s.len(),
{
    if s.len() > 0 && s[0] == 32u8 {
        spaces_dropped(s.drop_first())
    } else {
        s
    }
}

/// Takes the payload out of a response line.
pub fn strip_response_prefix(text: &[u8], prefix: &str) -> (r: Option<Vec<u8>>)
    ensures
        r matches Some(v) ==> response_payload(text@, prefix.spec_bytes()) == Some(v@),
        r is None ==> response_payload(text@, prefix.spec_bytes()) is None,
{
    let t = trim_crlf(text);
    let p = prefix.as_bytes();
    let n = p.len();
    if !(n < t.len() && starts_with(t, p) && t[n] == 58) {
        return None;
    }
    let mut start: usize = n + 1;
    assert(t@.subrange(start as int, t@.len() as int) =~= t@.subrange(n + 1, t@.len() as int));
    while start < t.len() && t[start] == 32
        invariant
            n + 1 <= start <= t@.len(),
            spaces_dropped(t@.subrange(n + 1, t@.len() as int)) == spaces_dropped(
                t@.subrange(start as int, t@.len() as int),
            ),
        decreases t@.len() - start,
    {
        assert(t@.subrange(start as int, t@.len() as int).drop_first() =~= t@.subrange(
            start + 1,
            t@.len() as int,
        ));
        start = start + 1;
    }
    let rest = t.split_at(start).1;
    assert(rest@ =~= t@.subrange(start as int, t@.len() as int));
    Some(to_vec(rest))
}

/// An empty position keeps the others in place: in the fields of plain
/// arguments joined by commas, an empty argument (an absent nullable value)
/// gives an empty field at its own position, and every other field is its
/// own argument's bytes.
pub proof fn law_empty_keeps_positions(args: Seq<ArgV>, i: int)
    requires
        args.len() > 0,
        forall|k: int| 0 <= k < args.len() ==> plain_arg(#[trigger] args[k]),
        0 <= i < args.len(),
        args[i] == ArgV::Empty,
    ensures
        fields(join(args)).len() == args.len(),
        fields(join(args))[i].len() == 0,
        forall|k: int| 0 <= k < args.len() && k != i ==> #[trigger] fields(join(args))[k] == arg_bytes(args[k]),
{
    let s = join(args);
    assert(s.subrange(0, s.len() as int) =~= s);
    lemma_split_join(s, 0, args, Seq::empty());
    assert(Seq::<Seq<u8>>::empty() + args.map_values(|a: ArgV| arg_bytes(a)) =~= args.map_values(|a: ArgV| arg_bytes(a)));
}

} // verus!
