//! Action templates with `{{param}}` placeholders.
//!
//! A template is read once, from the left. Where the placeholder of a parameter
//! begins, the parameter's value stands in its place; a value is put in as it
//! is, whatever braces it holds. All else is left as it stands.

use vstd::prelude::*;
use vstd::string::*;
use crate::text::{chars_of, contains_text, extend, matches_at, string_of};
use crate::text_map::{distinct_keys, has_key, map_of, map_of_pairs, values_mapped, TextMap};

verus! {

/// The placeholder of a parameter.
pub open spec fn placeholder(key: Seq<char>) -> Seq<char> {
    seq!['{', '{'] + key + seq!['}', '}']
}

/// Whether `text` begins with the placeholder of `key`.
pub open spec fn begins(text: Seq<char>, key: Seq<char>) -> bool {
    placeholder(key).is_prefix_of(text)
}

/// The parameter whose placeholder stands at the front of `text`. Where those of
/// several begin there, it is the one with the shortest key.
pub open spec fn slot_at(text: Seq<char>, args: Seq<(Seq<char>, Seq<char>)>) -> Option<
    (Seq<char>, Seq<char>),
>
    decreases args.len(),
{
    if args.len() == 0 {
        None
    } else {
        let before = slot_at(text, args.drop_last());
        let last = args.last();
        if begins(text, last.0) && (before matches Some(best) ==> last.0.len() < best.0.len()) {
            Some(last)
        } else {
            before
        }
    }
}

/// `template` with the placeholders of `args` replaced by their values. What was
/// put in is not looked at again.
pub open spec fn interpolate(template: Seq<char>, args: Seq<(Seq<char>, Seq<char>)>) -> Seq<char>
    decreases template.len(),
{
    if template.len() == 0 {
        Seq::empty()
    } else {
        proof {
            slot_at_is_shortest(template, args);
        }
        match slot_at(template, args) {
            Some((key, value)) => value + interpolate(
                template.skip(placeholder(key).len() as int),
                args,
            ),
            None => seq![template.first()] + interpolate(template.drop_first(), args),
        }
    }
}

/// The parameter at the front of a text is one whose placeholder begins there,
/// and none with a shorter key does. There is one just where some placeholder
/// begins.
pub proof fn slot_at_is_shortest(text: Seq<char>, args: Seq<(Seq<char>, Seq<char>)>)
    ensures
        match slot_at(text, args) {
            Some(slot) => {
                &&& args.contains(slot)
                &&& begins(text, slot.0)
                &&& forall|j: int|
                    0 <= j < args.len() && begins(text, (#[trigger] args[j]).0) ==> slot.0.len()
                        <= args[j].0.len()
            },
            None => forall|j: int| 0 <= j < args.len() ==> !begins(text, (#[trigger] args[j]).0),
        },
    decreases args.len(),
{
    if args.len() > 0 {
        let front = args.drop_last();
        let last = args.last();
        slot_at_is_shortest(text, front);
        assert forall|j: int| 0 <= j < args.len() implies j == args.len() - 1 || #[trigger] args[j]
            == front[j] by {}
        if let Some(slot) = slot_at(text, args) {
            if slot == last {
                assert(args[args.len() - 1] == slot);
            } else {
                let k = choose|k: int| 0 <= k < front.len() && front[k] == slot;
                assert(args[k] == slot);
            }
        }
    }
}

/// The keys and the characters of the values of a map of strings.
pub open spec fn arg_texts(pairs: Seq<(Seq<char>, String)>) -> Seq<(Seq<char>, Seq<char>)> {
    values_mapped(pairs, |s: String| s@)
}

/// The placeholder of a parameter.
fn placeholder_of(key: &str) -> (r: Vec<char>)
    ensures
        r@ == placeholder(key@),
{
    let mut pattern: Vec<char> = Vec::new();
    pattern.push('{');
    pattern.push('{');
    let name = chars_of(key);
    extend(&mut pattern, &name);
    pattern.push('}');
    pattern.push('}');
    proof {
        assert(pattern@ =~= placeholder(key@));
    }
    pattern
}

/// The placeholders of the parameters.
fn placeholders(args: &TextMap<String>) -> (r: Vec<Vec<char>>)
    ensures
        r.len() == args.pairs().len(),
        forall|i: int|
            0 <= i < r.len() ==> (#[trigger] r@[i])@ == placeholder(args.pairs()[i].0),
{
    let mut patterns: Vec<Vec<char>> = Vec::new();
    let n = args.len();
    let mut i: usize = 0;
    while i < n
        invariant
            i <= n,
            n == args.pairs().len(),
            patterns.len() == i,
            forall|j: int|
                0 <= j < i ==> (#[trigger] patterns@[j])@ == placeholder(args.pairs()[j].0),
        decreases n - i,
    {
        patterns.push(placeholder_of(args.key_at(i)));
        i = i + 1;
    }
    patterns
}

/// The number of the parameter whose placeholder stands in `chars` at `at`.
fn find_slot(chars: &Vec<char>, at: usize, patterns: &Vec<Vec<char>>, args: &TextMap<String>) -> (r:
    Option<usize>)
    requires
        at <= chars.len(),
        patterns.len() == args.pairs().len(),
        forall|i: int|
            0 <= i < patterns.len() ==> (#[trigger] patterns@[i])@ == placeholder(
                args.pairs()[i].0,
            ),
    ensures
        match r {
            Some(i) => i < args.pairs().len() && slot_at(
                chars@.skip(at as int),
                arg_texts(args.pairs()),
            ) == Some(arg_texts(args.pairs())[i as int]),
            None => slot_at(chars@.skip(at as int), arg_texts(args.pairs())) is None,
        },
{
    let ghost all = arg_texts(args.pairs());
    let ghost text = chars@.skip(at as int);
    let mut best: Option<usize> = None;
    let mut i: usize = 0;
    while i < patterns.len()
        invariant
            i <= patterns.len(),
            at <= chars.len(),
            text == chars@.skip(at as int),
            patterns.len() == all.len(),
            forall|j: int|
                0 <= j < patterns.len() ==> (#[trigger] patterns@[j])@ == placeholder(all[j].0),
            match best {
                Some(b) => b < i && slot_at(text, all.take(i as int)) == Some(all[b as int]),
                None => slot_at(text, all.take(i as int)) is None,
            },
        decreases patterns.len() - i,
    {
        proof {
            assert(all.take(i + 1).drop_last() =~= all.take(i as int));
            assert(all.take(i + 1).last() == all[i as int]);
            assert(patterns@[i as int]@ == placeholder(all[i as int].0));
        }
        if matches_at(chars, at, &patterns[i]) {
            let shorter = match best {
                Some(b) => {
                    proof {
                        assert(patterns@[b as int]@ == placeholder(all[b as int].0));
                    }
                    patterns[i].len() < patterns[b].len()
                },
                None => true,
            };
            if shorter {
                best = Some(i);
            }
        }
        i = i + 1;
    }
    proof {
        assert(all.take(i as int) =~= all);
    }
    best
}

/// Puts the values of `args` into `template`.
pub fn interpolate_action(template: &str, args: &TextMap<String>) -> (r: String)
    ensures
        r@ == interpolate(template@, arg_texts(args.pairs())),
{
    let ghost all = arg_texts(args.pairs());
    let chars = chars_of(template);
    let patterns = placeholders(args);
    let mut out: Vec<char> = Vec::new();
    let mut i: usize = 0;
    proof {
        assert(chars@.skip(0) =~= chars@);
        assert(out@ + interpolate(chars@, all) =~= interpolate(chars@, all));
    }
    while i < chars.len()
        invariant
            i <= chars.len(),
            all == arg_texts(args.pairs()),
            patterns.len() == args.pairs().len(),
            forall|j: int|
                0 <= j < patterns.len() ==> (#[trigger] patterns@[j])@ == placeholder(
                    args.pairs()[j].0,
                ),
            interpolate(chars@, all) == out@ + interpolate(chars@.skip(i as int), all),
        decreases chars.len() - i,
    {
        let ghost before = out@;
        let ghost rest = chars@.skip(i as int);
        proof {
            slot_at_is_shortest(rest, all);
        }
        match find_slot(&chars, i, &patterns, args) {
            Some(k) => {
                let value = chars_of(args.value_at(k).as_str());
                extend(&mut out, &value);
                proof {
                    let key = all[k as int].0;
                    let n = placeholder(key).len() as int;
                    assert(patterns@[k as int]@ == placeholder(key));
                    assert(rest.skip(n) =~= chars@.skip(i + n));
                    assert(before + (value@ + interpolate(rest.skip(n), all)) =~= out@
                        + interpolate(chars@.skip(i + n), all));
                }
                i = i + patterns[k].len();
            },
            None => {
                out.push(chars[i]);
                proof {
                    assert(rest.drop_first() =~= chars@.skip(i + 1));
                    assert(before + (seq![rest.first()] + interpolate(rest.drop_first(), all))
                        =~= out@ + interpolate(chars@.skip(i + 1), all));
                }
                i = i + 1;
            },
        }
    }
    proof {
        assert(chars@.skip(i as int) =~= Seq::<char>::empty());
        assert(out@ + Seq::<char>::empty() =~= out@);
    }
    string_of(&out)
}

/// Two lists of parameters that denote the same map have the same parameter at
/// the front of a text.
proof fn slot_at_ignores_order(
    text: Seq<char>,
    args: Seq<(Seq<char>, Seq<char>)>,
    other: Seq<(Seq<char>, Seq<char>)>,
)
    requires
        distinct_keys(args),
        distinct_keys(other),
        map_of(args) == map_of(other),
    ensures
        slot_at(text, args) == slot_at(text, other),
{
    slot_at_is_shortest(text, args);
    slot_at_is_shortest(text, other);
    same_parameter(args, other);
    same_parameter(other, args);
    match (slot_at(text, args), slot_at(text, other)) {
        (Some(p), Some(q)) => {
            let i = choose|i: int| 0 <= i < args.len() && args[i] == p;
            let j = choose|j: int| 0 <= j < other.len() && other[j] == q;
            assert(other.contains(args[i]));
            assert(args.contains(other[j]));
            let i2 = choose|k: int| 0 <= k < other.len() && other[k] == p;
            let j2 = choose|k: int| 0 <= k < args.len() && args[k] == q;
            assert(begins(text, other[i2].0));
            assert(begins(text, args[j2].0));
            same_length_same_key(text, p.0, q.0);
            map_of_pairs(args);
            assert(args[i].0 == args[j2].0);
            if i < j2 || j2 < i {
                assert(args[i].0 != args[j2].0);
            }
        },
        (Some(p), None) => {
            let i = choose|i: int| 0 <= i < args.len() && args[i] == p;
            assert(other.contains(args[i]));
            let k = choose|k: int| 0 <= k < other.len() && other[k] == p;
            assert(!begins(text, other[k].0));
        },
        (None, Some(q)) => {
            let j = choose|j: int| 0 <= j < other.len() && other[j] == q;
            assert(args.contains(other[j]));
            let k = choose|k: int| 0 <= k < args.len() && args[k] == q;
            assert(!begins(text, args[k].0));
        },
        (None, None) => {},
    }
}

/// A parameter of one list is in any other that denotes the same map.
proof fn same_parameter(
    args: Seq<(Seq<char>, Seq<char>)>,
    other: Seq<(Seq<char>, Seq<char>)>,
)
    requires
        distinct_keys(args),
        distinct_keys(other),
        map_of(args) == map_of(other),
    ensures
        forall|i: int| 0 <= i < args.len() ==> other.contains(#[trigger] args[i]),
{
    map_of_pairs(args);
    map_of_pairs(other);
    assert forall|i: int| 0 <= i < args.len() implies other.contains(#[trigger] args[i]) by {
        let key = args[i].0;
        assert(has_key(args, key));
        assert(map_of(args).dom().contains(key));
        assert(has_key(other, key));
        let j = choose|j: int| 0 <= j < other.len() && (#[trigger] other[j]).0 == key;
        assert(map_of(other)[other[j].0] == other[j].1);
        assert(other[j] == args[i]);
    }
}

/// Two placeholders of one length that begin at one place are the same.
proof fn same_length_same_key(text: Seq<char>, key: Seq<char>, other: Seq<char>)
    requires
        begins(text, key),
        begins(text, other),
        key.len() == other.len(),
    ensures
        key == other,
{
    assert forall|i: int| 0 <= i < key.len() implies key[i] == other[i] by {
        assert(placeholder(key)[2 + i] == text[2 + i]);
        assert(placeholder(other)[2 + i] == text[2 + i]);
    }
    assert(key =~= other);
}

/// The order of the parameters does not matter: lists that denote the same map
/// give the same text.
pub proof fn interpolation_ignores_order(
    template: Seq<char>,
    args: Seq<(Seq<char>, Seq<char>)>,
    other: Seq<(Seq<char>, Seq<char>)>,
)
    requires
        distinct_keys(args),
        distinct_keys(other),
        map_of(args) == map_of(other),
    ensures
        interpolate(template, args) == interpolate(template, other),
    decreases template.len(),
{
    if template.len() > 0 {
        slot_at_ignores_order(template, args, other);
        slot_at_is_shortest(template, args);
        match slot_at(template, args) {
            Some((key, value)) => {
                interpolation_ignores_order(
                    template.skip(placeholder(key).len() as int),
                    args,
                    other,
                );
            },
            None => {
                interpolation_ignores_order(template.drop_first(), args, other);
            },
        }
    }
}

/// Where no placeholder of the parameters occurs in the template, the template
/// comes back unchanged.
pub proof fn interpolation_without_placeholders(
    template: Seq<char>,
    args: Seq<(Seq<char>, Seq<char>)>,
)
    requires
        forall|i: int|
            0 <= i < args.len() ==> !contains_text(template, placeholder((#[trigger] args[i]).0)),
    ensures
        interpolate(template, args) == template,
{
    assert forall|i: int| 0 <= i < template.len() implies slot_at(
        #[trigger] (template + Seq::empty()).skip(i),
        args,
    ) is None by {
        assert(template + Seq::<char>::empty() =~= template);
        slot_at_is_shortest(template.skip(i), args);
        if let Some(slot) = slot_at(template.skip(i), args) {
            let k = choose|k: int| 0 <= k < args.len() && args[k] == slot;
            assert(placeholder(args[k].0).is_prefix_of(template.skip(i)));
            assert(contains_text(template, placeholder(args[k].0)));
        }
    }
    plain_text_stays(template, Seq::empty(), args);
    assert(template + Seq::<char>::empty() =~= template);
}

/// Text in which no placeholder begins stays as it is, in front of whatever
/// follows.
pub proof fn plain_text_stays(
    text: Seq<char>,
    rest: Seq<char>,
    args: Seq<(Seq<char>, Seq<char>)>,
)
    requires
        forall|i: int|
            0 <= i < text.len() ==> slot_at(#[trigger] (text + rest).skip(i), args) is None,
    ensures
        interpolate(text + rest, args) == text + interpolate(rest, args),
    decreases text.len(),
{
    let s = text + rest;
    if text.len() == 0 {
        assert(s =~= rest);
        assert(text + interpolate(rest, args) =~= interpolate(rest, args));
    } else {
        let tail = text.drop_first();
        assert(s.skip(0) =~= s);
        assert(slot_at(s.skip(0), args) is None);
        assert forall|i: int| 0 <= i < tail.len() implies slot_at(
            #[trigger] (tail + rest).skip(i),
            args,
        ) is None by {
            assert((tail + rest).skip(i) =~= s.skip(i + 1));
        }
        plain_text_stays(tail, rest, args);
        assert(s.drop_first() =~= tail + rest);
        assert(seq![s.first()] + (tail + interpolate(rest, args)) =~= text + interpolate(
            rest,
            args,
        ));
    }
}

/// A piece of a template: text that stands for itself, or the place of a
/// parameter.
pub enum Segment {
    Plain(Seq<char>),
    Slot(Seq<char>),
}

/// The characters of a piece.
pub open spec fn segment_text(segment: Segment) -> Seq<char> {
    match segment {
        Segment::Plain(text) => text,
        Segment::Slot(key) => placeholder(key),
    }
}

/// The template that the pieces make up.
pub open spec fn render(segments: Seq<Segment>) -> Seq<char>
    decreases segments.len(),
{
    if segments.len() == 0 {
        Seq::empty()
    } else {
        segment_text(segments.first()) + render(segments.drop_first())
    }
}

/// The piece with the value of its parameter put in, where `values` has one.
pub open spec fn resolved(segment: Segment, values: Map<Seq<char>, Seq<char>>) -> Segment {
    match segment {
        Segment::Plain(text) => segment,
        Segment::Slot(slot) => if values.dom().contains(slot) {
            Segment::Plain(values[slot])
        } else {
            segment
        },
    }
}

/// The pieces with the values of their parameters put in.
pub open spec fn all_resolved(
    segments: Seq<Segment>,
    values: Map<Seq<char>, Seq<char>>,
) -> Seq<Segment> {
    segments.map_values(|s: Segment| resolved(s, values))
}

/// Whether the placeholders of the parameters begin in the template at their own
/// slots alone.
pub open spec fn only_at_slots(segments: Seq<Segment>, args: Seq<(Seq<char>, Seq<char>)>) -> bool
    decreases segments.len(),
{
    if segments.len() == 0 {
        true
    } else {
        &&& match segments.first() {
            Segment::Slot(key) if has_key(args, key) => {
                slot_at(render(segments), args) matches Some(slot) && slot.0 == key
            },
            first => forall|i: int|
                0 <= i < segment_text(first).len() ==> slot_at(
                    #[trigger] render(segments).skip(i),
                    args,
                ) is None,
        }
        &&& only_at_slots(segments.drop_first(), args)
    }
}

/// Parameters go into their places.
///
/// In a template in which the placeholders of the parameters begin at their own
/// slots alone, every slot with a parameter is replaced by that parameter's
/// value, whatever the value holds, and every other slot and all other text
/// stays as it is.
pub proof fn interpolation_fills_every_slot(
    segments: Seq<Segment>,
    args: Seq<(Seq<char>, Seq<char>)>,
)
    requires
        distinct_keys(args),
        only_at_slots(segments, args),
    ensures
        interpolate(render(segments), args) == render(all_resolved(segments, map_of(args))),
    decreases segments.len(),
{
    let after = all_resolved(segments, map_of(args));
    if segments.len() > 0 {
        let tail = segments.drop_first();
        let rest = render(tail);
        let first = segments.first();
        let text = segment_text(first);
        interpolation_fills_every_slot(tail, args);
        map_of_pairs(args);
        assert(after.drop_first() =~= all_resolved(tail, map_of(args)));
        assert(after.first() == resolved(first, map_of(args)));
        assert(render(segments) == text + rest);
        let known = first is Slot && has_key(args, first->Slot_0);
        if known {
            let key = first->Slot_0;
            slot_at_is_shortest(render(segments), args);
            let slot = slot_at(render(segments), args)->0;
            let k = choose|k: int| 0 <= k < args.len() && args[k] == slot;
            assert(map_of(args).dom().contains(key) == has_key(args, key));
            assert(map_of(args)[args[k].0] == args[k].1);
            assert((text + rest).skip(text.len() as int) =~= rest);
        } else {
            if let Segment::Slot(key) = first {
                assert(map_of(args).dom().contains(key) == has_key(args, key));
            }
            assert forall|i: int| 0 <= i < text.len() implies slot_at(
                #[trigger] (text + rest).skip(i),
                args,
            ) is None by {
                assert(render(segments).skip(i) == (text + rest).skip(i));
            }
            plain_text_stays(text, rest, args);
        }
    }
}

/// Text in which no placeholder begins, whatever follows it.
pub open spec fn opens_nothing(text: Seq<char>) -> bool {
    &&& forall|i: int|
        0 <= i < text.len() - 1 ==> !(#[trigger] text[i] == '{' && text[i + 1] == '{')
    &&& text.len() > 0 ==> text.last() != '{'
}

/// A key that cannot be read as the end of a placeholder or the start of
/// another.
pub open spec fn plain_key(key: Seq<char>) -> bool {
    &&& !key.contains('}')
    &&& opens_nothing(seq!['{'] + key + seq!['}'])
}

/// A piece whose braces are those of its own placeholder.
pub open spec fn tidy(segment: Segment) -> bool {
    match segment {
        Segment::Plain(text) => opens_nothing(text),
        Segment::Slot(key) => plain_key(key),
    }
}

/// No placeholder begins inside a text in which none begins.
proof fn nothing_begins(text: Seq<char>, rest: Seq<char>, key: Seq<char>, i: int)
    requires
        opens_nothing(text),
        0 <= i < text.len(),
    ensures
        !placeholder(key).is_prefix_of((text + rest).skip(i)),
{
    let p = placeholder(key);
    let s = (text + rest).skip(i);
    if p.is_prefix_of(s) {
        assert(p[0] == s[0] && p[1] == s[1]);
        assert(text[i] == '{');
        if i == text.len() - 1 {
            assert(text.last() == '{');
        } else {
            assert(text[i + 1] == '{');
        }
    }
}

/// No placeholder begins inside a slot but that of the slot itself.
proof fn only_the_slot_begins(slot: Seq<char>, rest: Seq<char>, key: Seq<char>, i: int)
    requires
        plain_key(slot),
        !key.contains('}'),
        slot != key,
        0 <= i < placeholder(slot).len(),
    ensures
        !placeholder(key).is_prefix_of((placeholder(slot) + rest).skip(i)),
{
    let p = placeholder(key);
    let s = placeholder(slot) + rest;
    if i == 0 {
        assert(s.skip(0) =~= s);
        if p.is_prefix_of(s) {
            assert forall|i: int| 0 <= i < p.len() implies p[i] == s[i] by {}
            assert(p[2 + key.len() as int] == '}');
            assert(s[2 + slot.len() as int] == '}');
            if key.len() < slot.len() {
                assert(s[2 + key.len() as int] == slot[key.len() as int]);
                assert(slot.contains('}'));
            } else if slot.len() < key.len() {
                assert(p[2 + slot.len() as int] == key[slot.len() as int]);
                assert(key.contains('}'));
            } else {
                assert(slot =~= key) by {
                    assert forall|i: int| 0 <= i < key.len() implies slot[i] == key[i] by {
                        assert(p[2 + i] == key[i]);
                        assert(s[2 + i] == slot[i]);
                    }
                }
            }
        }
    } else {
        let inner = seq!['{'] + slot + seq!['}'];
        let body = seq!['{'] + slot + seq!['}', '}'];
        assert(opens_nothing(body)) by {
            assert forall|i: int| 0 <= i < body.len() - 1 implies !(#[trigger] body[i] == '{'
                && body[i + 1] == '{') by {
                if i < inner.len() - 1 {
                    assert(body[i] == inner[i]);
                    assert(body[i + 1] == inner[i + 1]);
                }
            }
        }
        nothing_begins(body, rest, key, i - 1);
        assert((body + rest).skip(i - 1) =~= s.skip(i));
    }
}

/// In a template whose braces all belong to its placeholders, those begin at
/// their own slots alone.
pub proof fn tidy_only_at_slots(segments: Seq<Segment>, args: Seq<(Seq<char>, Seq<char>)>)
    requires
        forall|i: int| 0 <= i < segments.len() ==> tidy(#[trigger] segments[i]),
        forall|i: int| 0 <= i < args.len() ==> !(#[trigger] args[i]).0.contains('}'),
    ensures
        only_at_slots(segments, args),
    decreases segments.len(),
{
    if segments.len() > 0 {
        let tail = segments.drop_first();
        let rest = render(tail);
        let first = segments.first();
        assert forall|i: int| 0 <= i < tail.len() implies tidy(#[trigger] tail[i]) by {
            assert(tail[i] == segments[i + 1]);
        }
        tidy_only_at_slots(tail, args);
        assert(tidy(segments[0]));
        let known = first is Slot && has_key(args, first->Slot_0);
        if known {
            let key = first->Slot_0;
            let text = placeholder(key) + rest;
            assert(begins(text, key)) by {
                assert(text.take(placeholder(key).len() as int) =~= placeholder(key));
            }
            assert(text.skip(0) =~= text);
            slot_at_is_shortest(text, args);
            let k = choose|k: int| 0 <= k < args.len() && (#[trigger] args[k]).0 == key;
            assert(begins(text, args[k].0));
            let slot = slot_at(text, args)->0;
            let j = choose|j: int| 0 <= j < args.len() && args[j] == slot;
            assert(!args[j].0.contains('}'));
            if slot.0 != key {
                only_the_slot_begins(key, rest, slot.0, 0);
            }
        } else {
            assert forall|i: int| 0 <= i < segment_text(first).len() implies slot_at(
                #[trigger] render(segments).skip(i),
                args,
            ) is None by {
                let text = render(segments).skip(i);
                slot_at_is_shortest(text, args);
                if let Some(slot) = slot_at(text, args) {
                    let j = choose|j: int| 0 <= j < args.len() && args[j] == slot;
                    assert(!args[j].0.contains('}'));
                    match first {
                        Segment::Plain(plain) => {
                            nothing_begins(plain, rest, slot.0, i);
                        },
                        Segment::Slot(key) => {
                            assert(args[j].0 == slot.0);
                            assert(slot.0 != key);
                            only_the_slot_begins(key, rest, slot.0, i);
                        },
                    }
                }
            }
        }
    }
}

} // verus!
