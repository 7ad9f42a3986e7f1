//! Name derivation: the canonical lowercase, underscore-separated token of an
//! identifier, and the method and type names built from it.

use vstd::prelude::*;

verus! {

/// Whether `c` is an uppercase character in Unicode's sense, as
/// `char::is_uppercase` decides it.
pub uninterp spec fn is_uppercase(c: char) -> bool;

/// `char::is_uppercase`: trusted to depend on the character alone. Which
/// characters it accepts is not stated; no proof here rests on it.
pub assume_specification[ char::is_uppercase ](c: char) -> (b: bool)
    ensures
        b == is_uppercase(c),
;

/// The ASCII punctuation characters: `!`..`/`, `:`..`@`, `[`..`` ` `` and `{`..`~`.
pub open spec fn is_ascii_punctuation(c: char) -> bool {
    ||| 0x21 <= c as u32 <= 0x2F
    ||| 0x3A <= c as u32 <= 0x40
    ||| 0x5B <= c as u32 <= 0x60
    ||| 0x7B <= c as u32 <= 0x7E
}

/// `char::is_ascii_punctuation`: trusted to accept exactly the four ASCII ranges
/// that its documentation lists.
pub assume_specification[ char::is_ascii_punctuation ](c: &char) -> (b: bool)
    ensures
        b == is_ascii_punctuation(*c),
;

/// `A`..`Z` mapped to `a`..`z`; every other character unchanged.
pub open spec fn ascii_lowercase(c: char) -> char {
    if 'A' <= c <= 'Z' {
        ((c as u32) + 32) as char
    } else {
        c
    }
}

/// `char::to_ascii_lowercase`: trusted to map the ASCII letters `A`..`Z` to `a`..`z`
/// and to leave every other character as it is.
pub assume_specification[ char::to_ascii_lowercase ](c: &char) -> (r: char)
    ensures
        r == ascii_lowercase(*c),
;

/// `String::push`: trusted to append the character at the end of the string.
pub assume_specification[ String::push ](s: &mut String, ch: char)
    ensures
        final(s)@ == old(s)@.push(ch),
;

/// The separator of canonical names.
pub open spec fn is_separator(c: char) -> bool {
    c == '_'
}

/// The character that precedes position `i` in a scan of `s`. The scan starts as
/// if a separator had just been read.
pub open spec fn previous(s: Seq<char>, i: int) -> char {
    if i <= 0 {
        '_'
    } else {
        s[i - 1]
    }
}

/// What reading `c` after `prev` appends to the output `out` of the scan, where
/// `uppercase` tells whether `c` is an uppercase letter.
pub open spec fn scan_step(out: Seq<char>, prev: char, c: char, uppercase: bool) -> Seq<char> {
    if uppercase {
        if !is_ascii_punctuation(prev) && !is_separator(prev) {
            out.push('_').push(ascii_lowercase(c))
        } else {
            out.push(ascii_lowercase(c))
        }
    } else if c == '-' || c == ' ' {
        if out.len() > 0 && is_separator(out.last()) {
            out
        } else {
            out.push('_')
        }
    } else {
        out.push(c)
    }
}

/// The left-to-right scan of an identifier: a separator goes in front of each
/// uppercase letter that follows neither a separator nor punctuation, the letter
/// itself is lowered, and `-` and space become one separator.
pub open spec fn scan(s: Seq<char>) -> Seq<char>
    decreases s.len(),
{
    if s.len() == 0 {
        Seq::empty()
    } else {
        scan_step(scan(s.drop_last()), previous(s, s.len() - 1), s.last(), is_uppercase(s.last()))
    }
}

/// `s` without its leading separators.
pub open spec fn trim_start(s: Seq<char>) -> Seq<char>
    decreases s.len(),
{
    if s.len() > 0 && is_separator(s.first()) {
        trim_start(s.drop_first())
    } else {
        s
    }
}

/// `s` without its trailing separators.
pub open spec fn trim_end(s: Seq<char>) -> Seq<char>
    decreases s.len(),
{
    if s.len() > 0 && is_separator(s.last()) {
        trim_end(s.drop_last())
    } else {
        s
    }
}

/// `s` without leading and trailing separators.
pub open spec fn trim_separators(s: Seq<char>) -> Seq<char> {
    trim_end(trim_start(s))
}

/// `s` trimmed and with every ASCII letter in lower case.
pub open spec fn finished(s: Seq<char>) -> Seq<char> {
    trim_separators(s).map_values(|c: char| ascii_lowercase(c))
}

/// The canonical name of the identifier `s`: its scan, trimmed of separators at
/// both ends, with every ASCII letter in lower case.
pub open spec fn snake_case(s: Seq<char>) -> Seq<char> {
    finished(scan(s))
}

/// Whether `s` has only separators before `from` and from `to` on, and either
/// nothing between the two or a first and a last character that are none.
pub open spec fn is_trimmed_range(s: Seq<char>, from: int, to: int) -> bool {
    &&& 0 <= from <= to <= s.len()
    &&& forall|j: int| 0 <= j < from ==> is_separator(#[trigger] s[j])
    &&& forall|j: int| to <= j < s.len() ==> is_separator(#[trigger] s[j])
    &&& from < to ==> !is_separator(s[from]) && !is_separator(s[to - 1])
}

proof fn lemma_trim_start_skip(s: Seq<char>, k: int)
    requires
        0 <= k <= s.len(),
        forall|j: int| 0 <= j < k ==> is_separator(#[trigger] s[j]),
    ensures
        trim_start(s) == trim_start(s.subrange(k, s.len() as int)),
    decreases k,
{
    if k == 0 {
        assert(s.subrange(0, s.len() as int) =~= s);
    } else {
        lemma_trim_start_skip(s, k - 1);
        let t = s.subrange(k - 1, s.len() as int);
        assert(t.first() == s[k - 1]);
        assert(t.drop_first() =~= s.subrange(k, s.len() as int));
    }
}

proof fn lemma_trim_end_skip(s: Seq<char>, k: int)
    requires
        0 <= k <= s.len(),
        forall|j: int| k <= j < s.len() ==> is_separator(#[trigger] s[j]),
    ensures
        trim_end(s) == trim_end(s.subrange(0, k)),
    decreases s.len() - k,
{
    if k == s.len() {
        assert(s.subrange(0, k) =~= s);
    } else {
        lemma_trim_end_skip(s, k + 1);
        let t = s.subrange(0, k + 1);
        assert(t.last() == s[k]);
        assert(t.drop_last() =~= s.subrange(0, k));
    }
}

/// Trimming keeps exactly the range between the leading and the trailing
/// separators.
pub proof fn lemma_trim_separators(s: Seq<char>, from: int, to: int)
    requires
        is_trimmed_range(s, from, to),
    ensures
        trim_separators(s) == s.subrange(from, to),
{
    if from < to {
        let tail = s.subrange(from, s.len() as int);
        lemma_trim_start_skip(s, from);
        assert(trim_start(tail) == tail);
        lemma_trim_end_skip(tail, to - from);
        assert(tail.subrange(0, to - from) =~= s.subrange(from, to));
        let kept = s.subrange(from, to);
        assert(trim_end(kept) == kept);
    } else {
        lemma_trim_start_skip(s, s.len() as int);
        assert(s.subrange(s.len() as int, s.len() as int) =~= Seq::<char>::empty());
        assert(s.subrange(from, to) =~= Seq::<char>::empty());
    }
}

/// A canonical name neither starts nor ends with a separator, and holds no
/// ASCII uppercase letter.
pub proof fn lemma_snake_case_shape(s: Seq<char>)
    ensures
        snake_case(s).len() > 0 ==> !is_separator(snake_case(s).first()) && !is_separator(
            snake_case(s).last(),
        ),
        forall|i: int|
            0 <= i < snake_case(s).len() ==> !('A' <= #[trigger] snake_case(s)[i] <= 'Z'),
{
    let raw = scan(s);
    lemma_trim_start_shape(raw);
    lemma_trim_end_shape(trim_start(raw));
    assert forall|c: char| is_separator(ascii_lowercase(c)) implies is_separator(c) by {}
    assert forall|c: char| !('A' <= #[trigger] ascii_lowercase(c) <= 'Z') by {}
}

proof fn lemma_trim_start_shape(s: Seq<char>)
    ensures
        trim_start(s).len() > 0 ==> !is_separator(trim_start(s).first()),
        trim_start(s).len() <= s.len(),
    decreases s.len(),
{
    if s.len() > 0 && is_separator(s.first()) {
        lemma_trim_start_shape(s.drop_first());
    }
}

proof fn lemma_trim_end_shape(s: Seq<char>)
    ensures
        trim_end(s).len() > 0 ==> !is_separator(trim_end(s).last()),
        trim_end(s).len() > 0 ==> trim_end(s).first() == s.first(),
        trim_end(s).len() <= s.len(),
    decreases s.len(),
{
    if s.len() > 0 && is_separator(s.last()) {
        lemma_trim_end_shape(s.drop_last());
    }
}

/// Reads one character in the scan of an identifier: `c`, which follows
/// `prev_char`, and of which `uppercase` tells whether it is an uppercase letter.
pub fn scan_char(raw: &mut Vec<char>, prev_char: char, c: char, uppercase: bool)
    ensures
        final(raw)@ == scan_step(old(raw)@, prev_char, c, uppercase),
{
    if uppercase {
        if !prev_char.is_ascii_punctuation() && prev_char != '_' {
            raw.push('_');
        }
        raw.push(c.to_ascii_lowercase());
    } else if c == '-' || c == ' ' {
        if !(raw.len() > 0 && raw[raw.len() - 1] == '_') {
            raw.push('_');
        }
    } else {
        raw.push(c);
    }
}

/// Finishes a scanned name: removes the separators at both ends and lowers every
/// ASCII letter.
pub fn finish_name(raw: &Vec<char>) -> (name: String)
    ensures
        name@ == finished(raw@),
{
    let mut start: usize = 0;
    while start < raw.len() && raw[start] == '_'
        invariant
            start <= raw.len(),
            forall|j: int| 0 <= j < start ==> is_separator(#[trigger] raw@[j]),
        decreases raw.len() - start,
    {
        start += 1;
    }
    let mut end: usize = raw.len();
    while end > start && raw[end - 1] == '_'
        invariant
            start <= end <= raw.len(),
            forall|j: int| end <= j < raw.len() ==> is_separator(#[trigger] raw@[j]),
        decreases end,
    {
        end -= 1;
    }
    proof {
        lemma_trim_separators(raw@, start as int, end as int);
    }

    let mut name = String::new();
    let mut i: usize = start;
    while i < end
        invariant
            start <= i <= end <= raw.len(),
            name@ == raw@.subrange(start as int, i as int).map_values(
                |c: char| ascii_lowercase(c),
            ),
        decreases end - i,
    {
        name.push(raw[i].to_ascii_lowercase());
        proof {
            let before = raw@.subrange(start as int, i as int);
            let after = raw@.subrange(start as int, i + 1);
            assert(after.map_values(|c: char| ascii_lowercase(c)) =~= before.map_values(
                |c: char| ascii_lowercase(c),
            ).push(ascii_lowercase(raw@[i as int])));
        }
        i += 1;
    }
    name
}

/// Derives the canonical lowercase, underscore-separated name of an identifier.
pub fn to_snake_case(s: &str) -> (snake: String)
    ensures
        snake@ == snake_case(s@),
{
    let mut raw: Vec<char> = Vec::new();
    let mut prev_char = '_';
    for c in it: s.chars()
        invariant
            it.seq() == s@,
            raw@ == scan(s@.take(it.index() as int)),
            prev_char == previous(s@, it.index() as int),
    {
        proof {
            let n = it.index() as int;
            assert(s@.take(n + 1).drop_last() =~= s@.take(n));
            assert(s@.take(n + 1).last() == c);
            assert(previous(s@.take(n + 1), n) == previous(s@, n));
        }
        scan_char(&mut raw, prev_char, c, c.is_uppercase());
        prev_char = c;
    }
    assert(s@.take(s@.len() as int) =~= s@);
    finish_name(&raw)
}

/// The name of the transformer interface generated for the union `union_name`.
pub open spec fn transformer_name(union_name: Seq<char>) -> Seq<char> {
    union_name + "Transformer"@
}

/// The name of the transform method generated for the variant `variant`.
pub open spec fn transform_fn_name(variant: Seq<char>) -> Seq<char> {
    "transform_"@ + snake_case(variant)
}

/// The name of the visit method generated for the variant `variant`.
pub open spec fn visit_fn_name(variant: Seq<char>) -> Seq<char> {
    "visit_"@ + snake_case(variant)
}

/// Two variants get the same transform method exactly when they get the same
/// visit method: when their canonical names agree.
pub proof fn lemma_method_names_follow_canonical(a: Seq<char>, b: Seq<char>)
    ensures
        transform_fn_name(a) == transform_fn_name(b) <==> snake_case(a) == snake_case(b),
        visit_fn_name(a) == visit_fn_name(b) <==> snake_case(a) == snake_case(b),
{
    let t = "transform_"@;
    let v = "visit_"@;
    assert((t + snake_case(a)).subrange(t.len() as int, (t + snake_case(a)).len() as int)
        =~= snake_case(a));
    assert((t + snake_case(b)).subrange(t.len() as int, (t + snake_case(b)).len() as int)
        =~= snake_case(b));
    assert((v + snake_case(a)).subrange(v.len() as int, (v + snake_case(a)).len() as int)
        =~= snake_case(a));
    assert((v + snake_case(b)).subrange(v.len() as int, (v + snake_case(b)).len() as int)
        =~= snake_case(b));
}

/// Names the transformer interface of a union: the union's name followed by
/// `Transformer`.
pub fn gen_transformer_id(enum_id: &str) -> (id: String)
    ensures
        id@ == transformer_name(enum_id@),
{
    let mut transformer_name = String::from_str(enum_id);
    transformer_name.append("Transformer");
    transformer_name
}

/// Names the transform method of a variant: `transform_` and the variant's
/// canonical name.
pub fn gen_transform_fn_name(variant_id: &str) -> (id: String)
    ensures
        id@ == transform_fn_name(variant_id@),
{
    let mut fn_name = String::from_str("transform_");
    let canonical = to_snake_case(variant_id);
    fn_name.append(canonical.as_str());
    fn_name
}

/// Names the visit method of a variant: `visit_` and the variant's canonical name.
pub fn gen_visit_fn_name(variant_id: &str) -> (id: String)
    ensures
        id@ == visit_fn_name(variant_id@),
{
    let mut fn_name = String::from_str("visit_");
    let canonical = to_snake_case(variant_id);
    fn_name.append(canonical.as_str());
    fn_name
}

} // verus!
