//! Routes through a JSON report.
//!
//! Every JSON report format keeps its file references at a fixed place: under
//! some members, inside some arrays, in a string member of a known name. A
//! route writes that place down, and [`collect`] walks it.

use vstd::prelude::*;
use crate::json::{contents, lemma_contents_take, Json, JsonValue};
use crate::text::{lemma_strings_push, strings, strip_first, without_first};

verus! {

/// One step of a route.
pub enum Step {
    /// Into the member of this name.
    Member(&'static str),
    /// Into every item of the array member of this name, in order.
    Each(&'static str),
}

/// The text found at the end of a route: as it stands, or without its first
/// character.
pub open spec fn leaf_text(text: Seq<char>, strip: bool) -> Seq<char> {
    if strip {
        without_first(text)
    } else {
        text
    }
}

/// The strings that the route `steps` reaches from `doc`, in document order:
/// at the end of the route, the string member called `leaf`.
pub open spec fn route_texts(doc: JsonValue, steps: Seq<Step>, leaf: Seq<char>, strip: bool) -> Seq<
    Seq<char>,
>
    decreases steps.len(), 0int,
{
    if steps.len() == 0 {
        match doc.text_member(leaf) {
            Some(text) => seq![leaf_text(text, strip)],
            None => Seq::empty(),
        }
    } else {
        match steps[0] {
            Step::Member(key) => match doc.member(key@) {
                Some(inner) => route_texts(inner, steps.drop_first(), leaf, strip),
                None => Seq::empty(),
            },
            Step::Each(key) => each_texts(doc.listed(key@), steps.drop_first(), leaf, strip),
        }
    }
}

/// The strings that the route `steps` reaches from each of `items` in turn.
pub open spec fn each_texts(items: Seq<JsonValue>, steps: Seq<Step>, leaf: Seq<char>, strip: bool) -> Seq<
    Seq<char>,
>
    decreases steps.len(), 1 + items.len(),
{
    if items.len() == 0 {
        Seq::empty()
    } else {
        each_texts(items.drop_last(), steps, leaf, strip) + route_texts(
            items.last(),
            steps,
            leaf,
            strip,
        )
    }
}

/// Appends to `paths` the strings that the route `steps[from..]` reaches from
/// `doc`.
pub fn collect(
    doc: &Json,
    steps: &Vec<Step>,
    from: usize,
    leaf: &str,
    strip: bool,
    paths: &mut Vec<String>,
)
    requires
        from <= steps@.len(),
    ensures
        strings(final(paths)@) == strings(old(paths)@) + route_texts(
            doc@,
            steps@.skip(from as int),
            leaf@,
            strip,
        ),
    decreases steps@.len() - from,
{
    let ghost route = steps@.skip(from as int);
    let ghost start = strings(paths@);
    if from == steps.len() {
        match doc.get_str(leaf) {
            Some(text) => {
                let owned = if strip {
                    strip_first(text)
                } else {
                    text.to_owned()
                };
                proof {
                    lemma_strings_push(paths@, owned);
                    assert(strings(paths@).push(owned@) =~= strings(paths@) + seq![owned@]);
                }
                paths.push(owned);
            },
            None => {
                assert(strings(paths@) =~= strings(paths@) + Seq::<Seq<char>>::empty());
            },
        }
    } else {
        assert(route[0] == steps@[from as int]);
        assert(route.drop_first() =~= steps@.skip(from as int + 1));
        match steps[from] {
            Step::Member(key) => match doc.get(key) {
                Some(inner) => {
                    collect(inner, steps, from + 1, leaf, strip, paths);
                },
                None => {
                    assert(strings(paths@) =~= strings(paths@) + Seq::<Seq<char>>::empty());
                },
            },
            Step::Each(key) => match doc.get_array(key) {
                Some(items) => {
                    let ghost all = contents(items@);
                    let ghost rest = steps@.skip(from as int + 1);
                    let next = from + 1;
                    let mut i: usize = 0;
                    assert(all.take(0) =~= Seq::<JsonValue>::empty());
                    assert(start =~= start + Seq::<Seq<char>>::empty());
                    while i < items.len()
                        invariant
                            i <= items@.len(),
                            next == from + 1,
                            next <= steps@.len(),
                            all == contents(items@),
                            rest == steps@.skip(from as int + 1),
                            strings(paths@) == start + each_texts(
                                all.take(i as int),
                                rest,
                                leaf@,
                                strip,
                            ),
                        decreases items@.len() - i,
                    {
                        proof {
                            lemma_contents_take(items@, i as int);
                            assert(all.take(i as int + 1).drop_last() =~= all.take(i as int));
                            assert(all.take(i as int + 1).last() == items@[i as int]@);
                        }
                        let ghost before = strings(paths@);
                        collect(&items[i], steps, next, leaf, strip, paths);
                        proof {
                            let step = route_texts(items@[i as int]@, rest, leaf@, strip);
                            let done = each_texts(all.take(i as int), rest, leaf@, strip);
                            assert(strings(paths@) == before + step);
                            assert((start + done) + step =~= start + (done + step));
                        }
                        i = i + 1;
                    }
                    assert(all.take(i as int) =~= all);
                },
                None => {
                    assert(each_texts(doc@.listed(key@), route.drop_first(), leaf@, strip)
                        =~= Seq::<Seq<char>>::empty());
                    assert(strings(paths@) =~= strings(paths@) + Seq::<Seq<char>>::empty());
                },
            },
        }
    }
}

} // verus!
