//! The choice of skills for a message.

use vstd::prelude::*;

use crate::json;
use crate::text;

verus! {

/// The name at an index is new: it is neither among the names that come first nor at an
/// earlier index.
pub open spec fn fresh(explicit: Seq<Seq<char>>, scored: Seq<Seq<char>>, i: int) -> bool {
    !explicit.contains(scored[i]) && !scored.take(i).contains(scored[i])
}

/// The indices of the scored skills that join those that were mentioned.
pub open spec fn joining(explicit: Seq<Seq<char>>, scored: Seq<Seq<char>>) -> Seq<int>
    decreases scored.len(),
{
    if scored.len() == 0 {
        seq![]
    } else {
        let front = joining(explicit, scored.drop_last());
        if fresh(explicit, scored, scored.len() - 1) {
            front.push(scored.len() - 1)
        } else {
            front
        }
    }
}

/// The numbers that indices are.
pub open spec fn indices(list: Seq<usize>) -> Seq<int> {
    list.map_values(|i: usize| i as int)
}

/// The list holds a text before an index.
fn occurs_before(list: &Vec<String>, end: usize, name: &str) -> (r: bool)
    requires
        end <= list@.len(),
    ensures
        r == text::texts(list@).take(end as int).contains(name@),
{
    let ghost names = text::texts(list@);
    let mut i: usize = 0;
    while i < end
        invariant
            names == text::texts(list@),
            i <= end <= list@.len(),
            forall|j: int| 0 <= j < i ==> names[j] != name@,
        decreases end - i,
    {
        if text::same(list[i].as_str(), name) {
            assert(names.take(end as int)[i as int] == name@);
            return true;
        }
        i = i + 1;
    }
    false
}

/// The scored skills that join those that the user mentioned, by their index: each skill
/// once, and none that was mentioned already.
pub fn skills_to_join(explicit: &Vec<String>, scored: &Vec<String>) -> (r: Vec<usize>)
    ensures
        indices(r@) == joining(text::texts(explicit@), text::texts(scored@)),
{
    let ghost first = text::texts(explicit@);
    let ghost all = text::texts(scored@);
    let mut out: Vec<usize> = Vec::new();
    let mut i: usize = 0;
    assert(indices(out@) =~= joining(first, all.take(0)));
    assert(first.take(first.len() as int) =~= first);
    while i < scored.len()
        invariant
            first == text::texts(explicit@),
            first.take(first.len() as int) == first,
            all == text::texts(scored@),
            i <= scored@.len(),
            indices(out@) == joining(first, all.take(i as int)),
        decreases scored@.len() - i,
    {
        let ghost done = indices(out@);
        let ghost next = all.take(i as int + 1);
        assert(next.drop_last() =~= all.take(i as int));
        assert(next.take(i as int) =~= all.take(i as int));
        assert(next[i as int] == scored@[i as int]@);
        if !occurs_before(explicit, explicit.len(), scored[i].as_str()) && !occurs_before(
            scored,
            i,
            scored[i].as_str(),
        ) {
            out.push(i);
            assert(indices(out@) =~= done.push(i as int));
        }
        i = i + 1;
    }
    assert(all.take(all.len() as int) =~= all);
    out
}

/// Exactly the new names join, in order: no skill is chosen twice, and none is left out.
pub proof fn joining_is_exact(explicit: Seq<Seq<char>>, scored: Seq<Seq<char>>)
    ensures
        forall|k: int|
            0 <= k < joining(explicit, scored).len() ==> 0 <= #[trigger] joining(
                explicit,
                scored,
            )[k] < scored.len() && fresh(explicit, scored, joining(explicit, scored)[k]),
        forall|a: int, b: int|
            0 <= a < b < joining(explicit, scored).len() ==> #[trigger] joining(
                explicit,
                scored,
            )[a] < #[trigger] joining(explicit, scored)[b],
        forall|i: int|
            0 <= i < scored.len() && #[trigger] fresh(explicit, scored, i) ==> joining(
                explicit,
                scored,
            ).contains(i),
    decreases scored.len(),
{
    if scored.len() > 0 {
        let front = scored.drop_last();
        let n = scored.len() - 1;
        let chosen = joining(explicit, front);
        let all = joining(explicit, scored);
        joining_is_exact(explicit, front);
        assert forall|i: int| 0 <= i < n implies #[trigger] fresh(explicit, scored, i) == fresh(
            explicit,
            front,
            i,
        ) by {
            assert(scored.take(i) =~= front.take(i));
        }
        assert forall|k: int| 0 <= k < chosen.len() implies all[k] == chosen[k] by {}
        assert forall|k: int| 0 <= k < all.len() implies 0 <= #[trigger] all[k] < scored.len()
            && fresh(explicit, scored, all[k]) by {
            if k < chosen.len() {
                assert(all[k] == chosen[k]);
                assert(fresh(explicit, front, chosen[k]));
                assert(fresh(explicit, scored, chosen[k]));
            }
        }
        assert forall|i: int| 0 <= i < scored.len() && #[trigger] fresh(
            explicit,
            scored,
            i,
        ) implies all.contains(i) by {
            if i < n {
                assert(fresh(explicit, front, i));
                let k = choose|k: int| 0 <= k < chosen.len() && chosen[k] == i;
                assert(all[k] == i);
            } else {
                assert(all[all.len() - 1] == i);
            }
        }
    }
}

/// The notes on the choice: one for each skill that the user mentioned, then those of the
/// scoring.
pub open spec fn feedback_lines(explicit: Seq<Seq<char>>, notes: Seq<Seq<char>>) -> Seq<Seq<char>> {
    explicit.map_values(|name: Seq<char>| name + ": force-activated via /mention"@) + notes
}

/// The notes on the choice.
pub fn skill_feedback(explicit: &Vec<String>, notes: Vec<String>) -> (r: Vec<String>)
    ensures
        text::texts(r@) == feedback_lines(text::texts(explicit@), text::texts(notes@)),
{
    let ghost forced = text::texts(explicit@).map_values(
        |name: Seq<char>| name + ": force-activated via /mention"@,
    );
    let ghost given = text::texts(notes@);
    let mut out: Vec<String> = Vec::new();
    let mut i: usize = 0;
    while i < explicit.len()
        invariant
            forced == text::texts(explicit@).map_values(
                |name: Seq<char>| name + ": force-activated via /mention"@,
            ),
            i <= explicit@.len(),
            text::texts(out@) =~= forced.take(i as int),
        decreases explicit@.len() - i,
    {
        let ghost done = text::texts(out@);
        let line = text::cat(explicit[i].as_str(), ": force-activated via /mention");
        assert(forced[i as int] == line@);
        out.push(line);
        assert(text::texts(out@) =~= done.push(line@));
        i = i + 1;
    }
    let ghost start = out@;
    let ghost last = notes@;
    assert(text::texts(start) =~= forced);
    let mut notes = notes;
    out.append(&mut notes);
    assert(out@ =~= start + last);
    assert(text::texts(out@) =~= forced + given);
    out
}

/// Some skill names a marker file.
pub open spec fn names_marker(markers: Seq<Option<String>>, name: Seq<char>) -> bool {
    exists|i: int| 0 <= i < markers.len() && json::string_of(#[trigger] markers[i]) == Some(name)
}

/// The marker files that skills name, each once.
pub fn distinct_markers(markers: &Vec<Option<String>>) -> (r: Vec<String>)
    ensures
        text::texts(r@).no_duplicates(),
        forall|name: Seq<char>| #[trigger]
            text::texts(r@).contains(name) <==> names_marker(markers@, name),
{
    let mut out: Vec<String> = Vec::new();
    let mut i: usize = 0;
    while i < markers.len()
        invariant
            i <= markers@.len(),
            text::texts(out@).no_duplicates(),
            forall|name: Seq<char>| #[trigger]
                text::texts(out@).contains(name) <==> names_marker(
                    markers@.take(i as int),
                    name,
                ),
        decreases markers@.len() - i,
    {
        let ghost done = text::texts(out@);
        let ghost before = markers@.take(i as int);
        let ghost after = markers@.take(i as int + 1);
        let ghost here = json::string_of(markers@[i as int]);
        if let Some(m) = &markers[i] {
            let known = occurs_before(&out, out.len(), m.as_str());
            assert(done.take(done.len() as int) =~= done);
            if !known {
                let m = m.clone();
                out.push(m);
                assert(text::texts(out@) =~= done.push(m@));
            }
        }
        assert forall|name: Seq<char>| #[trigger]
            text::texts(out@).contains(name) <==> names_marker(after, name) by {
            if names_marker(before, name) {
                let k = choose|k: int|
                    0 <= k < before.len() && json::string_of(#[trigger] before[k]) == Some(name);
                assert(after[k] == before[k]);
            }
            if names_marker(after, name) && here != Some(name) {
                let k = choose|k: int|
                    0 <= k < after.len() && json::string_of(#[trigger] after[k]) == Some(name);
                assert(before[k] == after[k]);
            }
            if here == Some(name) {
                assert(after[i as int] == markers@[i as int]);
                if text::texts(out@) != done {
                    assert(text::texts(out@).last() == name);
                }
            }
            assert(done.contains(name) <==> names_marker(before, name));
            if done.contains(name) {
                let k = choose|k: int| 0 <= k < done.len() && done[k] == name;
                assert(text::texts(out@)[k] == name);
            }
            if text::texts(out@).contains(name) && here != Some(name) {
                let k = choose|k: int|
                    0 <= k < text::texts(out@).len() && text::texts(out@)[k] == name;
                assert(done[k] == name);
            }
        }
        i = i + 1;
    }
    assert(markers@.take(markers@.len() as int) =~= markers@);
    out
}

/// The marker files that count as present: those that were found. One that could not be
/// checked counts as missing.
pub open spec fn found_markers(markers: Seq<Seq<char>>, found: Seq<Result<bool, String>>) -> Seq<
    Seq<char>,
>
    decreases markers.len(),
{
    if markers.len() == 0 || found.len() < markers.len() {
        seq![]
    } else {
        let n = markers.len() - 1;
        let front = found_markers(markers.drop_last(), found);
        if found[n] == Ok::<bool, String>(true) {
            front.push(markers[n])
        } else {
            front
        }
    }
}

/// The marker files that count as present.
pub fn satisfied_markers(markers: &Vec<String>, found: &Vec<Result<bool, String>>) -> (r: Vec<
    String,
>)
    requires
        found@.len() == markers@.len(),
    ensures
        text::texts(r@) == found_markers(text::texts(markers@), found@),
{
    let ghost all = text::texts(markers@);
    let mut out: Vec<String> = Vec::new();
    let mut i: usize = 0;
    assert(text::texts(out@) =~= found_markers(all.take(0), found@));
    while i < markers.len()
        invariant
            all == text::texts(markers@),
            found@.len() == markers@.len(),
            i <= markers@.len(),
            text::texts(out@) == found_markers(all.take(i as int), found@),
        decreases markers@.len() - i,
    {
        let ghost done = text::texts(out@);
        assert(all.take(i as int + 1).drop_last() =~= all.take(i as int));
        assert(all.take(i as int + 1)[i as int] == markers@[i as int]@);
        let present: bool = match &found[i] {
            Ok(b) => *b,
            Err(_) => false,
        };
        if present {
            let marker = markers[i].clone();
            out.push(marker);
            assert(text::texts(out@) =~= done.push(marker@));
        }
        i = i + 1;
    }
    assert(all.take(all.len() as int) =~= all);
    out
}

/// No skill is chosen twice: a skill that joins was not mentioned, and no two that join have
/// the same name. And none is left out: every scored skill was mentioned or joins.
pub proof fn every_skill_is_chosen_once(explicit: Seq<Seq<char>>, scored: Seq<Seq<char>>)
    ensures
        ({
            let chosen = joining(explicit, scored);
            &&& forall|k: int|
                0 <= k < chosen.len() ==> 0 <= #[trigger] chosen[k] < scored.len()
                    && !explicit.contains(scored[chosen[k]])
            &&& forall|a: int, b: int|
                0 <= a < b < chosen.len() ==> #[trigger] chosen[a] < #[trigger] chosen[b]
                    && scored[chosen[a]] != scored[chosen[b]]
            &&& forall|i: int|
                0 <= i < scored.len() ==> explicit.contains(#[trigger] scored[i]) || exists|
                    k: int,
                |
                    0 <= k < chosen.len() && scored[#[trigger] chosen[k]] == scored[i]
        }),
{
    joining_is_exact(explicit, scored);
    let chosen = joining(explicit, scored);
    assert forall|a: int, b: int| 0 <= a < b < chosen.len() implies #[trigger] chosen[a]
        < #[trigger] chosen[b] && scored[chosen[a]] != scored[chosen[b]] by {
        assert(fresh(explicit, scored, chosen[b]));
        assert(scored.take(chosen[b])[chosen[a]] == scored[chosen[a]]);
    }
    assert forall|i: int| 0 <= i < scored.len() && !explicit.contains(
        #[trigger] scored[i],
    ) implies exists|k: int|
        0 <= k < chosen.len() && scored[#[trigger] chosen[k]] == scored[i] by {
        let j = first_of_name(scored, i);
        assert(fresh(explicit, scored, j)) by {
            if scored.take(j).contains(scored[j]) {
                let m = choose|m: int| 0 <= m < j && scored.take(j)[m] == scored[j];
                assert(scored[m] == scored[j]);
            }
        }
        assert(chosen.contains(j));
        let k = choose|k: int| 0 <= k < chosen.len() && chosen[k] == j;
        assert(scored[chosen[k]] == scored[i]);
    }
}

/// Where the name at an index stands first.
proof fn first_of_name(list: Seq<Seq<char>>, i: int) -> (j: int)
    requires
        0 <= i < list.len(),
    ensures
        0 <= j <= i,
        list[j] == list[i],
        forall|k: int| 0 <= k < j ==> #[trigger] list[k] != list[i],
    decreases i,
{
    if exists|k: int| 0 <= k < i && #[trigger] list[k] == list[i] {
        let k = choose|k: int| 0 <= k < i && #[trigger] list[k] == list[i];
        first_of_name(list, k)
    } else {
        i
    }
}

/// There is a note for each skill that was mentioned, which begins with its name, and after
/// them the notes of the scoring as they are.
pub proof fn notes_follow_the_choice(
    explicit: Seq<Seq<char>>,
    notes: Seq<Seq<char>>,
    i: int,
)
    requires
        0 <= i < explicit.len(),
    ensures
        feedback_lines(explicit, notes).len() == explicit.len() + notes.len(),
        text::begins_with(feedback_lines(explicit, notes)[i], explicit[i]),
        feedback_lines(explicit, notes)[i].len() > explicit[i].len(),
        feedback_lines(explicit, notes).skip(explicit.len() as int) == notes,
{
    reveal_strlit(": force-activated via /mention");
    let lines = feedback_lines(explicit, notes);
    assert(lines[i] == explicit[i] + ": force-activated via /mention"@);
    assert((explicit[i] + ": force-activated via /mention"@).take(explicit[i].len() as int)
        =~= explicit[i]);
    assert(lines.skip(explicit.len() as int) =~= notes);
}

/// A marker file is named where some skill names it.
pub proof fn markers_are_named_by_skills(
    markers: Seq<Option<String>>,
    next: Option<String>,
    name: Seq<char>,
)
    ensures
        names_marker(markers.push(next), name) <==> names_marker(markers, name) || (next is Some
            && next->0@ == name),
        !names_marker(Seq::empty(), name),
{
    let all = markers.push(next);
    if names_marker(markers, name) {
        let k = choose|k: int|
            0 <= k < markers.len() && json::string_of(#[trigger] markers[k]) == Some(name);
        assert(all[k] == markers[k]);
    }
    if next is Some && next->0@ == name {
        assert(json::string_of(all[markers.len() as int]) == Some(name));
    }
    if names_marker(all, name) {
        let k = choose|k: int|
            0 <= k < all.len() && json::string_of(#[trigger] all[k]) == Some(name);
        if k < markers.len() {
            assert(markers[k] == all[k]);
        }
    }
}

/// A marker file counts as present exactly where it was found; one that could not be checked
/// does not. The order is kept.
pub proof fn only_found_markers_count(
    markers: Seq<Seq<char>>,
    found: Seq<Result<bool, String>>,
    next: Seq<char>,
)
    requires
        found.len() == markers.len() + 1,
    ensures
        ({
            let before = found_markers(markers, found.drop_last());
            let after = found_markers(markers.push(next), found);
            match found.last() {
                Ok(true) => {
                    &&& after.len() == before.len() + 1
                    &&& after.drop_last() == before
                    &&& after.last() == next
                },
                Ok(false) => after == before,
                Err(_) => after == before,
            }
        }),
        found_markers(Seq::empty(), found).len() == 0,
{
    let all = markers.push(next);
    assert(all.drop_last() =~= markers);
    found_markers_ignore_the_rest(markers, found.drop_last(), found);
    let before = found_markers(markers, found.drop_last());
    let after = found_markers(all, found);
    if after.len() > before.len() {
        assert(after.drop_last() =~= before);
    }
}

proof fn found_markers_ignore_the_rest(
    markers: Seq<Seq<char>>,
    a: Seq<Result<bool, String>>,
    b: Seq<Result<bool, String>>,
)
    requires
        a.len() >= markers.len(),
        b.len() >= markers.len(),
        forall|i: int| 0 <= i < markers.len() ==> #[trigger] a[i] == b[i],
    ensures
        found_markers(markers, a) == found_markers(markers, b),
    decreases markers.len(),
{
    if markers.len() > 0 {
        found_markers_ignore_the_rest(markers.drop_last(), a, b);
    }
}

} // verus!
