use vstd::prelude::*;

verus! {

/// Whether two texts hold the same characters in the same order.
pub fn same_text(a: &str, b: &str) -> (same: bool)
    ensures
        same == (a@ == b@),
{
    let first = String::from_str(a);
    let second = String::from_str(b);
    first == second
}

/// `a`, `b` and `c` one after the other.
pub fn concat3(a: &str, b: &str, c: &str) -> (joined: String)
    ensures
        joined@ == a@ + b@ + c@,
{
    let mut joined = String::from_str(a);
    joined.append(b);
    joined.append(c);
    joined
}

/// A copy of an optional text.
pub fn copy_optional(text: &Option<String>) -> (copy: Option<String>)
    ensures
        copy.deep_view() == text.deep_view(),
{
    match text {
        Some(t) => Some(t.clone()),
        None => None,
    }
}

/// A copy of a list of texts.
pub fn copy_texts(texts: &Vec<String>) -> (copy: Vec<String>)
    ensures
        copy.deep_view() == texts.deep_view(),
{
    let mut copy: Vec<String> = Vec::new();
    let mut i: usize = 0;
    while i < texts.len()
        invariant
            i <= texts.len(),
            copy.len() == i,
            forall|k: int| 0 <= k < i ==> copy[k]@ == texts[k]@,
        decreases texts.len() - i,
    {
        copy.push(texts[i].clone());
        i = i + 1;
    }
    assert(copy.deep_view() =~= texts.deep_view());
    copy
}

/// The texts of `first` followed by those of `second`.
pub fn join_texts(first: &Vec<String>, second: &Vec<String>) -> (joined: Vec<String>)
    ensures
        joined.deep_view() == first.deep_view() + second.deep_view(),
{
    let mut joined: Vec<String> = copy_texts(first);
    let mut i: usize = 0;
    while i < second.len()
        invariant
            i <= second.len(),
            joined.deep_view() == first.deep_view() + second.deep_view().take(i as int),
        decreases second.len() - i,
    {
        let ghost so_far = joined.deep_view();
        joined.push(second[i].clone());
        assert(joined.deep_view() =~= so_far + seq![second[i as int]@]);
        assert(second.deep_view().take(i + 1) =~= second.deep_view().take(i as int) + seq![
            second[i as int]@,
        ]);
        i = i + 1;
    }
    assert(second.deep_view().take(second.len() as int) =~= second.deep_view());
    joined
}

/// Whether `texts` holds `text`.
pub open spec fn holds_text(texts: Seq<Seq<char>>, text: Seq<char>) -> bool {
    texts.contains(text)
}

/// The texts of `texts` from `from` on, added to `kept` in order, each
/// unless `kept` holds it by then: what is left when every repetition is
/// dropped.
pub open spec fn distinct_texts(texts: Seq<Seq<char>>, from: int, kept: Seq<Seq<char>>) -> Seq<
    Seq<char>,
>
    decreases texts.len() - from,
{
    if 0 <= from < texts.len() {
        distinct_texts(
            texts,
            from + 1,
            if holds_text(kept, texts[from]) {
                kept
            } else {
                kept.push(texts[from])
            },
        )
    } else {
        kept
    }
}

/// Whether no text occurs twice in a list.
pub open spec fn no_text_twice(texts: Seq<Seq<char>>) -> bool {
    forall|i: int, j: int| 0 <= i < j < texts.len() ==> texts[i] != texts[j]
}

/// Dropping the repetitions keeps what was kept before, at the same places;
/// what comes out holds every text that went in, from `from` on, and holds
/// no text twice if `kept` held none twice.
pub proof fn lemma_distinct_texts(texts: Seq<Seq<char>>, from: int, kept: Seq<Seq<char>>)
    requires
        0 <= from,
    ensures
        kept.is_prefix_of(distinct_texts(texts, from, kept)),
        forall|k: int| from <= k < texts.len() ==> holds_text(distinct_texts(texts, from, kept), texts[k]),
        forall|text: Seq<char>|
            holds_text(distinct_texts(texts, from, kept), text) ==> holds_text(kept, text) || exists|
                k: int,
            | from <= k < texts.len() && texts[k] == text,
        no_text_twice(kept) ==> no_text_twice(distinct_texts(texts, from, kept)),
    decreases texts.len() - from,
{
    if from < texts.len() {
        let next = if holds_text(kept, texts[from]) {
            kept
        } else {
            kept.push(texts[from])
        };
        lemma_distinct_texts(texts, from + 1, next);
        let all = distinct_texts(texts, from, kept);
        assert(kept.is_prefix_of(next)) by {
            assert(next.take(kept.len() as int) =~= kept);
        }
        assert(kept =~= all.take(kept.len() as int)) by {
            assert(next == all.take(next.len() as int));
            assert(kept == next.take(kept.len() as int));
        }
        assert(holds_text(next, texts[from])) by {
            if !holds_text(kept, texts[from]) {
                assert(next[kept.len() as int] == texts[from]);
            }
        }
        assert(holds_text(all, texts[from])) by {
            let i = choose|i: int| 0 <= i < next.len() && next[i] == texts[from];
            assert(all[i] == next[i]);
        }
        assert forall|text: Seq<char>| holds_text(all, text) implies holds_text(kept, text) || exists|
            k: int,
        | from <= k < texts.len() && texts[k] == text by {
            if holds_text(next, text) && !holds_text(kept, text) {
                let i = choose|i: int| 0 <= i < next.len() && next[i] == text;
                if i < kept.len() {
                    assert(kept[i] == text);
                }
                assert(texts[from] == text);
            }
        }
        if no_text_twice(kept) {
            assert forall|i: int, j: int| 0 <= i < j < next.len() implies next[i] != next[j] by {
                if j == kept.len() {
                    assert(kept[i] == next[i]);
                }
            }
        }
    } else {
        assert(kept.take(kept.len() as int) =~= kept);
    }
}

/// The texts of a list in the order of their first occurrence, each once.
pub fn without_repetitions(texts: &Vec<String>) -> (kept: Vec<String>)
    ensures
        kept.deep_view() == distinct_texts(texts.deep_view(), 0, Seq::empty()),
{
    let mut kept: Vec<String> = Vec::new();
    assert(kept.deep_view() =~= Seq::empty());
    let mut i: usize = 0;
    while i < texts.len()
        invariant
            i <= texts.len(),
            distinct_texts(texts.deep_view(), 0, Seq::empty()) == distinct_texts(
                texts.deep_view(),
                i as int,
                kept.deep_view(),
            ),
        decreases texts.len() - i,
    {
        let mut found: bool = false;
        let mut j: usize = 0;
        while j < kept.len() && !found
            invariant
                j <= kept.len(),
                i < texts.len(),
                found ==> kept.deep_view().contains(texts[i as int]@),
                !found ==> forall|k: int| 0 <= k < j ==> kept.deep_view()[k] != texts[i as int]@,
            decreases kept.len() - j + (if found { 0int } else { 1int }),
        {
            if same_text(kept[j].as_str(), texts[i].as_str()) {
                assert(kept.deep_view()[j as int] == texts[i as int]@);
                found = true;
            } else {
                j = j + 1;
            }
        }
        assert(texts.deep_view()[i as int] == texts[i as int]@);
        if !found {
            let ghost before = kept.deep_view();
            kept.push(texts[i].clone());
            assert(kept.deep_view() =~= before.push(texts[i as int]@));
        }
        i = i + 1;
    }
    kept
}

/// Whether `c` is white space: the characters that `str::trim` removes.
pub open spec fn is_space(c: char) -> bool {
    let n = c as u32;
    ||| 0x09 <= n <= 0x0d
    ||| n == 0x20
    ||| n == 0x85
    ||| n == 0xa0
    ||| n == 0x1680
    ||| 0x2000 <= n <= 0x200a
    ||| n == 0x2028
    ||| n == 0x2029
    ||| n == 0x202f
    ||| n == 0x205f
    ||| n == 0x3000
}

/// Tests whether `c` is white space.
pub fn space(c: char) -> (is: bool)
    ensures
        is == is_space(c),
{
    let n: u32 = c as u32;
    (0x09 <= n && n <= 0x0d) || n == 0x20 || n == 0x85 || n == 0xa0 || n == 0x1680 || (0x2000 <= n
        && n <= 0x200a) || n == 0x2028 || n == 0x2029 || n == 0x202f || n == 0x205f || n == 0x3000
}

/// `s` without the white space at its start.
pub open spec fn trim_start(s: Seq<char>) -> Seq<char>
    decreases s.len(),
{
    if s.len() > 0 && is_space(s[0]) {
        trim_start(s.skip(1))
    } else {
        s
    }
}

/// `s` without the white space at its end.
pub open spec fn trim_end(s: Seq<char>) -> Seq<char>
    decreases s.len(),
{
    if s.len() > 0 && is_space(s.last()) {
        trim_end(s.drop_last())
    } else {
        s
    }
}

/// `s` without the white space at either end.
pub open spec fn trimmed(s: Seq<char>) -> Seq<char> {
    trim_end(trim_start(s))
}

/// The position of the first comma of `s` at or after `from`, or the length
/// of `s` where there is none.
pub open spec fn next_comma(s: Seq<char>, from: int) -> int
    decreases s.len() - from,
{
    if from < 0 || from >= s.len() {
        s.len() as int
    } else if s[from] == ',' {
        from
    } else {
        next_comma(s, from + 1)
    }
}

/// The entries of the comma-separated list that starts at `from` in `s`:
/// each entry trimmed, the empty ones left out.
pub open spec fn list_entries(s: Seq<char>, from: int) -> Seq<Seq<char>>
    decreases s.len() - from,
{
    let end = next_comma(s, from);
    if 0 <= from <= end <= s.len() {
        let entry = trimmed(s.subrange(from, end));
        let kept = if entry.len() == 0 {
            Seq::<Seq<char>>::empty()
        } else {
            seq![entry]
        };
        if end < s.len() {
            kept + list_entries(s, end + 1)
        } else {
            kept
        }
    } else {
        Seq::empty()
    }
}

/// The part of `text` between `from` and `to` without the white space at
/// either end.
fn trimmed_part(text: &str, from: usize, to: usize) -> (part: String)
    requires
        from <= to <= text@.len(),
    ensures
        part@ == trimmed(text@.subrange(from as int, to as int)),
{
    let ghost whole = text@.subrange(from as int, to as int);
    let mut a: usize = from;
    while a < to && space(text.get_char(a))
        invariant
            from <= a <= to <= text@.len(),
            whole == text@.subrange(from as int, to as int),
            trim_start(whole) == trim_start(text@.subrange(a as int, to as int)),
        decreases to - a,
    {
        proof {
            let cur = text@.subrange(a as int, to as int);
            assert(cur.skip(1) =~= text@.subrange(a + 1, to as int));
        }
        a = a + 1;
    }
    let mut b: usize = to;
    while a < b && space(text.get_char(b - 1))
        invariant
            from <= a <= b <= to <= text@.len(),
            trim_start(whole) == text@.subrange(a as int, to as int),
            trim_end(trim_start(whole)) == trim_end(text@.subrange(a as int, b as int)),
        decreases b - a,
    {
        proof {
            let cur = text@.subrange(a as int, b as int);
            assert(cur.drop_last() =~= text@.subrange(a as int, b - 1));
        }
        b = b - 1;
    }
    String::from_str(text.substring_char(a, b))
}

/// The entries of a comma-separated list: each one trimmed, the empty ones
/// left out.
pub fn split_list(text: &str) -> (entries: Vec<String>)
    ensures
        entries.deep_view() == list_entries(text@, 0),
{
    let n: usize = text.unicode_len();
    let mut entries: Vec<String> = Vec::new();
    let mut from: usize = 0;
    let mut done: bool = false;
    while !done
        invariant
            n == text@.len(),
            from <= n,
            !done ==> list_entries(text@, 0) == entries.deep_view() + list_entries(
                text@,
                from as int,
            ),
            done ==> list_entries(text@, 0) == entries.deep_view(),
        decreases n - from + (if done { 0int } else { 1int }),
    {
        let mut end: usize = from;
        while end < n && text.get_char(end) != ','
            invariant
                n == text@.len(),
                from <= end <= n,
                next_comma(text@, from as int) == next_comma(text@, end as int),
            decreases n - end,
        {
            end = end + 1;
        }
        let entry = trimmed_part(text, from, end);
        let ghost before = entries.deep_view();
        if entry.as_str().unicode_len() > 0 {
            entries.push(entry);
            assert(entries.deep_view() =~= before + seq![entry@]);
        }
        if end < n {
            from = end + 1;
        } else {
            done = true;
        }
    }
    entries
}

} // verus!
