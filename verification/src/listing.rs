//! The list of group ids as the directory service prints it, and the choice
//! of an id that no group has yet.
//!
//! The utility prints one group per line: the group's name, white space, the
//! group's numeric id. A line whose second word is no number is passed over.

use vstd::prelude::*;

verus! {

/// White space as Unicode defines it: the characters that separate the words
/// of a line.
pub open spec fn is_space(c: char) -> bool {
    let u = c as u32;
    ||| 0x09 <= u <= 0x0D
    ||| u == 0x20
    ||| u == 0x85
    ||| u == 0xA0
    ||| u == 0x1680
    ||| 0x2000 <= u <= 0x200A
    ||| u == 0x2028
    ||| u == 0x2029
    ||| u == 0x202F
    ||| u == 0x205F
    ||| u == 0x3000
}

/// One of the ten ASCII digits.
pub open spec fn is_digit(c: char) -> bool {
    0x30 <= c as u32 <= 0x39
}

/// `s` without the white space it begins with.
pub open spec fn skip_spaces(s: Seq<char>) -> Seq<char>
    decreases s.len(),
{
    if s.len() > 0 && is_space(s[0]) {
        skip_spaces(s.drop_first())
    } else {
        s
    }
}

/// How many characters stand at the beginning of `s` before the first white
/// space.
pub open spec fn word_len(s: Seq<char>) -> nat
    decreases s.len(),
{
    if s.len() > 0 && !is_space(s[0]) {
        1 + word_len(s.drop_first())
    } else {
        0
    }
}

/// The second of the words of `line` that white space separates; empty where
/// the line has fewer than two words.
pub open spec fn second_word(line: Seq<char>) -> Seq<char> {
    let first = skip_spaces(line);
    let second = skip_spaces(first.skip(word_len(first) as int));
    second.take(word_len(second) as int)
}

/// The number that a sequence of digits denotes in base ten.
pub open spec fn digits_value(digits: Seq<char>) -> nat
    decreases digits.len(),
{
    if digits.len() == 0 {
        0
    } else {
        digits_value(digits.drop_last()) * 10 + (digits.last() as u32 - 0x30) as nat
    }
}

/// Whether `s` consists of digits only.
pub open spec fn all_digits(s: Seq<char>) -> bool {
    forall|i: int| 0 <= i < s.len() ==> is_digit(#[trigger] s[i])
}

/// The id that `digits` denote: one or more digits whose value fits 32 bits.
pub open spec fn unsigned(digits: Seq<char>) -> Option<u32> {
    if digits.len() > 0 && all_digits(digits) && digits_value(digits) <= u32::MAX {
        Some(digits_value(digits) as u32)
    } else {
        None
    }
}

/// The id that `word` denotes: an optional `+`, then one or more digits, whose
/// value fits 32 bits. Any other word denotes none.
pub open spec fn number(word: Seq<char>) -> Option<u32> {
    if word.len() > 0 && word[0] == '+' {
        unsigned(word.drop_first())
    } else {
        unsigned(word)
    }
}

/// How many characters stand at the beginning of `text` before the first line
/// feed.
pub open spec fn line_len(text: Seq<char>) -> nat
    decreases text.len(),
{
    if text.len() > 0 && text[0] != '\n' {
        1 + line_len(text.drop_first())
    } else {
        0
    }
}

/// The ids that `text` lists, line by line: of each line the number that its
/// second word denotes, where it denotes one.
pub open spec fn listed_ids(text: Seq<char>) -> Seq<u32>
    decreases text.len(),
{
    if text.len() == 0 {
        Seq::empty()
    } else {
        let n = line_len(text) as int;
        let rest = if n < text.len() {
            listed_ids(text.skip(n + 1))
        } else {
            Seq::empty()
        };
        match number(second_word(text.take(n))) {
            Some(id) => seq![id] + rest,
            None => rest,
        }
    }
}

/// `id` is free, at least `min`, and every id between the two is taken.
pub open spec fn is_least_free(taken: Seq<u32>, min: u32, id: u32) -> bool {
    &&& min <= id
    &&& !taken.contains(id)
    &&& forall|other: u32| min <= other < id ==> taken.contains(other)
}

/// The least id from `min` upwards that `taken` does not hold; `None` where
/// every such id is taken. Ids below `min` do not count, taken or not.
pub open spec fn least_free(taken: Seq<u32>, min: u32) -> Option<u32> {
    if exists|id: u32| is_least_free(taken, min, id) {
        Some(choose|id: u32| is_least_free(taken, min, id))
    } else {
        None
    }
}

/// There is at most one least free id.
pub proof fn lemma_least_free_unique(taken: Seq<u32>, min: u32, a: u32, b: u32)
    requires
        is_least_free(taken, min, a),
        is_least_free(taken, min, b),
    ensures
        a == b,
{
}

proof fn lemma_some_least_free(taken: Seq<u32>, min: u32, free: u32)
    requires
        min <= free,
        !taken.contains(free),
    ensures
        exists|id: u32| is_least_free(taken, min, id),
    decreases free - min,
{
    if exists|other: u32| min <= other < free && !taken.contains(other) {
        let other = choose|other: u32| min <= other < free && !taken.contains(other);
        lemma_some_least_free(taken, min, other);
    } else {
        assert(is_least_free(taken, min, free));
    }
}

/// The id chosen for a new group collides with none and respects the
/// minimum: it is at least `min`, no id in `taken` equals it, and every id
/// between `min` and it is taken. None is chosen only where every id from
/// `min` upwards is taken.
pub proof fn lemma_least_free(taken: Seq<u32>, min: u32)
    ensures
        match least_free(taken, min) {
            Some(id) => is_least_free(taken, min, id),
            None => forall|id: u32| min <= id ==> taken.contains(id),
        },
{
    if least_free(taken, min) is None {
        assert forall|id: u32| min <= id implies taken.contains(id) by {
            if !taken.contains(id) {
                lemma_some_least_free(taken, min, id);
            }
        }
    }
}

/// Whether `c` is white space.
pub fn space(c: char) -> (yes: bool)
    ensures
        yes == is_space(c),
{
    let u = c as u32;
    (0x09 <= u && u <= 0x0D) || u == 0x20 || u == 0x85 || u == 0xA0 || u == 0x1680 || (0x2000 <= u
        && u <= 0x200A) || u == 0x2028 || u == 0x2029 || u == 0x202F || u == 0x205F || u == 0x3000
}

fn after_spaces(v: &Vec<char>, from: usize, to: usize) -> (at: usize)
    requires
        from <= to <= v.len(),
    ensures
        from <= at <= to,
        v@.subrange(at as int, to as int) == skip_spaces(v@.subrange(from as int, to as int)),
{
    let mut at = from;
    while at < to && space(v[at])
        invariant
            from <= at <= to <= v.len(),
            skip_spaces(v@.subrange(at as int, to as int)) == skip_spaces(
                v@.subrange(from as int, to as int),
            ),
        decreases to - at,
    {
        assert(v@.subrange(at as int, to as int).drop_first() =~= v@.subrange(
            at as int + 1,
            to as int,
        ));
        at += 1;
    }
    at
}

fn after_word(v: &Vec<char>, from: usize, to: usize) -> (at: usize)
    requires
        from <= to <= v.len(),
    ensures
        from <= at <= to,
        at - from == word_len(v@.subrange(from as int, to as int)),
{
    let mut at = from;
    while at < to && !space(v[at])
        invariant
            from <= at <= to <= v.len(),
            (at - from) + word_len(v@.subrange(at as int, to as int)) == word_len(
                v@.subrange(from as int, to as int),
            ),
        decreases to - at,
    {
        assert(v@.subrange(at as int, to as int).drop_first() =~= v@.subrange(
            at as int + 1,
            to as int,
        ));
        at += 1;
    }
    at
}

fn line_end(v: &Vec<char>, from: usize) -> (at: usize)
    requires
        from <= v.len(),
    ensures
        from <= at <= v.len(),
        at - from == line_len(v@.skip(from as int)),
{
    let mut at = from;
    while at < v.len() && v[at] != '\n'
        invariant
            from <= at <= v.len(),
            (at - from) + line_len(v@.skip(at as int)) == line_len(v@.skip(from as int)),
        decreases v.len() - at,
    {
        assert(v@.skip(at as int).drop_first() =~= v@.skip(at as int + 1));
        at += 1;
    }
    at
}

proof fn lemma_digits_value_grows(digits: Seq<char>, k: int)
    requires
        0 <= k <= digits.len(),
    ensures
        digits_value(digits.take(k)) <= digits_value(digits),
    decreases digits.len() - k,
{
    if k == digits.len() {
        assert(digits.take(k) =~= digits);
    } else {
        lemma_digits_value_grows(digits, k + 1);
        assert(digits.take(k + 1).drop_last() =~= digits.take(k));
    }
}

fn number_in(v: &Vec<char>, from: usize, to: usize) -> (id: Option<u32>)
    requires
        from <= to <= v.len(),
    ensures
        id == number(v@.subrange(from as int, to as int)),
{
    let ghost word = v@.subrange(from as int, to as int);
    let start = if from < to && v[from] == '+' {
        from + 1
    } else {
        from
    };
    let ghost digits = v@.subrange(start as int, to as int);
    assert(word.len() > 0 && word[0] == '+' ==> digits =~= word.drop_first());
    if start == to {
        return None;
    }
    let mut value: u32 = 0;
    let mut at = start;
    while at < to
        invariant
            from <= start <= at <= to <= v.len(),
            start < to,
            word == v@.subrange(from as int, to as int),
            digits == v@.subrange(start as int, to as int),
            number(word) == unsigned(digits),
            value == digits_value(digits.take(at - start)),
            forall|i: int| 0 <= i < at - start ==> is_digit(#[trigger] digits[i]),
        decreases to - at,
    {
        let c = v[at];
        let u = c as u32;
        if u < 0x30 || u > 0x39 {
            assert(!is_digit(digits[at - start]));
            return None;
        }
        let d = u - 0x30;
        proof {
            assert(digits.take(at - start + 1).drop_last() =~= digits.take(at - start));
            lemma_digits_value_grows(digits, at - start + 1);
        }
        if value > (u32::MAX - d) / 10 {
            return None;
        }
        value = value * 10 + d;
        at += 1;
    }
    assert(digits.take(at - start) =~= digits);
    Some(value)
}

/// Reads the ids that `text` lists.
pub fn group_ids(text: &str) -> (ids: Vec<u32>)
    ensures
        ids@ == listed_ids(text@),
{
    let mut v: Vec<char> = Vec::new();
    for c in it: text.chars()
        invariant
            v@ == it.seq().take(it.index() as int),
            it.seq() == text@,
    {
        v.push(c);
    }
    assert(v@ =~= text@);
    let mut ids: Vec<u32> = Vec::new();
    let mut at: usize = 0;
    while at < v.len()
        invariant
            at <= v.len(),
            ids@ + listed_ids(v@.skip(at as int)) == listed_ids(v@),
        decreases v.len() - at,
    {
        let ghost text = v@.skip(at as int);
        let end = line_end(&v, at);
        let first = after_spaces(&v, at, end);
        let first_end = after_word(&v, first, end);
        let second = after_spaces(&v, first_end, end);
        let second_end = after_word(&v, second, end);
        let id = number_in(&v, second, second_end);
        proof {
            let n = end - at;
            let line = text.take(n);
            assert(line =~= v@.subrange(at as int, end as int));
            let a = v@.subrange(first as int, end as int);
            assert(a.skip(first_end - first) =~= v@.subrange(first_end as int, end as int));
            assert(second_word(line) == v@.subrange(second as int, second_end as int));
            if n < text.len() {
                assert(text.skip(n + 1) =~= v@.skip(end + 1));
            }
        }
        match id {
            Some(id) => {
                ids.push(id);
            },
            None => {},
        }
        if end < v.len() {
            at = end + 1;
        } else {
            at = end;
        }
    }
    ids
}

/// `sort_unstable` on a vector of ids: afterwards it holds the same ids, each
/// as often as before, in ascending order.
#[verifier::external_body]
fn sort_ids(ids: &mut Vec<u32>)
    ensures
        final(ids)@.to_multiset() == old(ids)@.to_multiset(),
        forall|i: int, j: int| 0 <= i <= j < final(ids)@.len() ==> final(ids)@[i] <= final(ids)@[j],
{
    ids.sort_unstable();
}

/// Picks the id for a new group: the ids in use are put in ascending order
/// and scanned upwards from `min_gid` for the first gap.
pub fn first_free_gid(ids: Vec<u32>, min_gid: u32) -> (free: Option<u32>)
    ensures
        free == least_free(ids@, min_gid),
        match free {
            Some(id) => is_least_free(ids@, min_gid, id),
            None => forall|id: u32| min_gid <= id ==> ids@.contains(id),
        },
{
    let ghost taken = ids@;
    let mut sorted = ids;
    sort_ids(&mut sorted);
    proof {
        broadcast use vstd::seq_lib::group_to_multiset_ensures;

        assert forall|id: u32| sorted@.contains(id) == taken.contains(id) by {
            assert(sorted@.to_multiset().count(id) == taken.to_multiset().count(id));
        }
    }
    let mut candidate = min_gid;
    let mut at: usize = 0;
    while at < sorted.len()
        invariant_except_break
            at <= sorted.len(),
        invariant
            taken == ids@,
            min_gid <= candidate,
            forall|id: u32| sorted@.contains(id) == taken.contains(id),
            forall|i: int, j: int| 0 <= i <= j < sorted@.len() ==> sorted@[i] <= sorted@[j],
            forall|id: u32| min_gid <= id < candidate ==> sorted@.contains(id),
            forall|k: int| 0 <= k < at ==> sorted@[k] < candidate,
        ensures
            !sorted@.contains(candidate),
        decreases sorted.len() - at,
    {
        let id = sorted[at];
        if id > candidate {
            assert forall|k: int| 0 <= k < sorted@.len() implies sorted@[k] != candidate by {}
            break;
        }
        if id == candidate {
            if candidate == u32::MAX {
                return None;
            }
            candidate += 1;
        }
        at += 1;
    }
    proof {
        lemma_least_free_unique(
            taken,
            min_gid,
            candidate,
            choose|id: u32| is_least_free(taken, min_gid, id),
        );
    }
    Some(candidate)
}

} // verus!
