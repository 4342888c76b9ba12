use vstd::prelude::*;

verus! {

/// One step of a settings path.
pub enum PathSegment {
    Name(String),
    Index(usize),
}

/// A JSON value of serde_json, carried through unread.
#[verifier::external_type_specification]
#[verifier::external_body]
pub struct ExJsonValue(serde_json::Value);

/// A settings value to store at a path.
pub struct PathValuePair {
    pub path: Vec<PathSegment>,
    pub value: serde_json::Value,
}

/// The decimal digit `d` (below 10).
pub open spec fn digit_char(d: nat) -> char {
    if d == 0 { '0' } else if d == 1 { '1' } else if d == 2 { '2' } else if d == 3 { '3' }
    else if d == 4 { '4' } else if d == 5 { '5' } else if d == 6 { '6' } else if d == 7 { '7' }
    else if d == 8 { '8' } else { '9' }
}

/// The decimal text of `i`, without leading zeros.
pub open spec fn decimal_text(i: nat) -> Seq<char>
    decreases i,
{
    if i < 10 {
        seq![digit_char(i)]
    } else {
        decimal_text(i / 10).push(digit_char(i % 10))
    }
}

fn digit_str(d: usize) -> (r: &'static str)
    requires
        d < 10,
    ensures
        r@ == seq![digit_char(d as nat)],
{
    proof {
        reveal_strlit("0");
        reveal_strlit("1");
        reveal_strlit("2");
        reveal_strlit("3");
        reveal_strlit("4");
        reveal_strlit("5");
        reveal_strlit("6");
        reveal_strlit("7");
        reveal_strlit("8");
        reveal_strlit("9");
    }
    let r = if d == 0 { "0" } else if d == 1 { "1" } else if d == 2 { "2" } else if d == 3 { "3" }
    else if d == 4 { "4" } else if d == 5 { "5" } else if d == 6 { "6" } else if d == 7 { "7" }
    else if d == 8 { "8" } else { "9" };
    assert(r@ =~= seq![digit_char(d as nat)]);
    r
}

/// Appends the decimal text of `i` to `out`.
fn push_decimal(i: usize, out: &mut String)
    ensures
        final(out)@ == old(out)@ + decimal_text(i as nat),
    decreases i,
{
    if i >= 10 {
        push_decimal(i / 10, out);
    }
    out.append(digit_str(i % 10));
    proof {
        if i < 10 {
            assert(i % 10 == i);
        }
        assert(final(out)@ =~= old(out)@ + decimal_text(i as nat));
    }
}

/// The text of a segment: a name as it is, an index as `[i]`.
pub open spec fn segment_text(seg: PathSegment) -> Seq<char> {
    match seg {
        PathSegment::Name(n) => n@,
        PathSegment::Index(i) => seq!['['] + decimal_text(i as nat) + seq![']'],
    }
}

impl PathSegment {
    /// How the segment reads in a path: a name as it is, an index in brackets.
    pub fn to_text(&self) -> (r: String)
        ensures
            r@ == segment_text(*self),
    {
        match self {
            PathSegment::Name(n) => n.clone(),
            PathSegment::Index(i) => {
                let mut out = String::from_str("[");
                push_decimal(*i, &mut out);
                out.append("]");
                proof {
                    reveal_strlit("[");
                    reveal_strlit("]");
                    assert(out@ =~= seq!['['] + decimal_text(*i as nat) + seq![']']);
                }
                out
            },
        }
    }
}

impl From<String> for PathSegment {
    fn from(value: String) -> (r: PathSegment)
        ensures
            r == PathSegment::Name(value),
    {
        PathSegment::Name(value)
    }
}

impl vstd::std_specs::convert::FromSpecImpl<String> for PathSegment {
    open spec fn obeys_from_spec() -> bool {
        true
    }

    open spec fn from_spec(v: String) -> PathSegment {
        PathSegment::Name(v)
    }
}

impl From<usize> for PathSegment {
    fn from(value: usize) -> (r: PathSegment)
        ensures
            r == PathSegment::Index(value),
    {
        PathSegment::Index(value)
    }
}

impl vstd::std_specs::convert::FromSpecImpl<usize> for PathSegment {
    open spec fn obeys_from_spec() -> bool {
        true
    }

    open spec fn from_spec(v: usize) -> PathSegment {
        PathSegment::Index(v)
    }
}

impl<'a> From<&'a str> for PathSegment {
    fn from(value: &'a str) -> (r: PathSegment)
        ensures
            r is Name && r->Name_0@ == value@,
    {
        PathSegment::Name(String::from_str(value))
    }
}

impl<'a> vstd::std_specs::convert::FromSpecImpl<&'a str> for PathSegment {
    // the result's text is stated on `from` itself; a `String` cannot be built
    // in a spec function
    open spec fn obeys_from_spec() -> bool {
        false
    }

    open spec fn from_spec(v: &'a str) -> PathSegment {
        PathSegment::Index(0)
    }
}

/// Splits `s` at every `'.'`, keeping empty pieces: the pieces of `"a..b"` are
/// `"a"`, `""` and `"b"`, and an empty string has one empty piece.
pub open spec fn split_dots(s: Seq<char>) -> Seq<Seq<char>>
    decreases s.len(),
{
    if s.len() == 0 {
        seq![Seq::<char>::empty()]
    } else {
        let prev = split_dots(s.drop_last());
        if s.last() == '.' {
            prev.push(Seq::<char>::empty())
        } else {
            prev.update(prev.len() - 1, prev.last().push(s.last()))
        }
    }
}

/// Whether `segs` is exactly the named segments `names`, in order.
pub open spec fn is_named_path(segs: Seq<PathSegment>, names: Seq<Seq<char>>) -> bool {
    &&& segs.len() == names.len()
    &&& forall|i: int|
        0 <= i < segs.len() ==> (#[trigger] segs[i] is Name && segs[i]->Name_0@ == names[i])
}

/// Parses a dot-delimited path into named segments. Numeric index segments are
/// not recognised: `"a.0"` gives the names `"a"` and `"0"`.
pub fn parse_path(path: &str) -> (r: Vec<PathSegment>)
    ensures
        is_named_path(r@, split_dots(path@)),
{
    let n = path.unicode_len();
    let mut out: Vec<PathSegment> = Vec::new();
    let mut start: usize = 0;
    let mut i: usize = 0;
    proof {
        assert(path@.subrange(0, 0) =~= Seq::<char>::empty());
    }
    while i < n
        invariant
            n == path@.len(),
            start <= i <= n,
            split_dots(path@.subrange(0, i as int)).len() == out@.len() + 1,
            split_dots(path@.subrange(0, i as int)).last() == path@.subrange(
                start as int,
                i as int,
            ),
            is_named_path(out@, split_dots(path@.subrange(0, i as int)).drop_last()),
        decreases n - i,
    {
        let c = path.get_char(i);
        let ghost prev = split_dots(path@.subrange(0, i as int));
        proof {
            let s1 = path@.subrange(0, i as int + 1);
            assert(s1.drop_last() =~= path@.subrange(0, i as int));
            assert(s1.last() == c);
        }
        if c == '.' {
            let piece = path.substring_char(start, i);
            let name = String::from_str(piece);
            out.push(PathSegment::Name(name));
            proof {
                let cur = split_dots(path@.subrange(0, i as int + 1));
                assert(cur == prev.push(Seq::<char>::empty()));
                assert(cur.drop_last() =~= prev);
                assert(path@.subrange(i as int + 1, i as int + 1) =~= Seq::<char>::empty());
                assert forall|k: int| 0 <= k < out@.len() implies (#[trigger] out@[k] is Name
                    && out@[k]->Name_0@ == cur.drop_last()[k]) by {
                    if k < out@.len() - 1 {
                        assert(prev.drop_last()[k] == prev[k]);
                    }
                }
            }
            start = i + 1;
        } else {
            proof {
                let cur = split_dots(path@.subrange(0, i as int + 1));
                assert(cur == prev.update(prev.len() - 1, prev.last().push(c)));
                assert(path@.subrange(start as int, i as int + 1) =~= path@.subrange(
                    start as int,
                    i as int,
                ).push(c));
                assert(cur.drop_last() =~= prev.drop_last());
            }
        }
        i = i + 1;
    }
    let piece = path.substring_char(start, n);
    let name = String::from_str(piece);
    out.push(PathSegment::Name(name));
    proof {
        let parts = split_dots(path@);
        assert(path@.subrange(0, n as int) =~= path@);
        assert forall|k: int| 0 <= k < out@.len() implies (#[trigger] out@[k] is Name
            && out@[k]->Name_0@ == parts[k]) by {
            if k < out@.len() - 1 {
                assert(parts.drop_last()[k] == parts[k]);
            }
        }
    }
    out
}

} // verus!
