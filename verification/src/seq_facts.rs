//! Facts about filtering a sequence.

use vstd::prelude::*;

verus! {

/// What a filter keeps: only elements of the sequence that pass, all of
/// those, and none twice if none came twice.
pub proof fn lemma_filter_keeps<A>(s: Seq<A>, pass: spec_fn(A) -> bool)
    ensures
        forall|i: int|
            0 <= i < s.filter(pass).len() ==> pass(#[trigger] s.filter(pass)[i]) && s.contains(
                s.filter(pass)[i],
            ),
        forall|m: int| 0 <= m < s.len() && pass(#[trigger] s[m]) ==> s.filter(pass).contains(s[m]),
        s.no_duplicates() ==> s.filter(pass).no_duplicates(),
    decreases s.len(),
{
    reveal(Seq::filter);
    let kept = s.filter(pass);
    if s.len() > 0 {
        let front = s.drop_last();
        let last = s.last();
        let front_kept = front.filter(pass);
        lemma_filter_keeps(front, pass);
        assert forall|i: int| 0 <= i < kept.len() implies pass(#[trigger] kept[i]) && s.contains(
            kept[i],
        ) by {
            if i < front_kept.len() {
                assert(kept[i] == front_kept[i]);
                assert(front.contains(front_kept[i]));
                let m = choose|m: int| 0 <= m < front.len() && front[m] == front_kept[i];
                assert(s[m] == kept[i]);
            } else {
                assert(kept[i] == last);
                assert(s[s.len() - 1] == last);
            }
        }
        assert forall|m: int| 0 <= m < s.len() && pass(#[trigger] s[m]) implies kept.contains(
            s[m],
        ) by {
            if m < front.len() {
                assert(front[m] == s[m]);
                assert(front_kept.contains(front[m]));
                let i = choose|i: int| 0 <= i < front_kept.len() && front_kept[i] == front[m];
                assert(kept[i] == s[m]);
            } else {
                assert(kept[kept.len() - 1] == s[m]);
            }
        }
        if s.no_duplicates() {
            assert(front.no_duplicates()) by {
                assert forall|i: int, j: int|
                    0 <= i < front.len() && 0 <= j < front.len() && i != j implies front[i]
                    != front[j] by {
                    assert(s[i] == front[i]);
                    assert(s[j] == front[j]);
                }
            }
            assert forall|i: int, j: int|
                0 <= i < kept.len() && 0 <= j < kept.len() && i != j implies kept[i] != kept[j] by {
                if i < front_kept.len() && j < front_kept.len() {
                    assert(kept[i] == front_kept[i]);
                    assert(kept[j] == front_kept[j]);
                } else {
                    let early = if i < j {
                        i
                    } else {
                        j
                    };
                    assert(kept[kept.len() - 1] == last);
                    assert(kept[early] == front_kept[early]);
                    assert(front.contains(front_kept[early]));
                    let m = choose|m: int| 0 <= m < front.len() && front[m] == front_kept[early];
                    assert(s[m] == kept[early]);
                    assert(s[s.len() - 1] == last);
                }
            }
        }
    }
}

/// A filter that every element passes keeps the sequence as it is.
pub proof fn lemma_filter_keeps_all<A>(s: Seq<A>, pass: spec_fn(A) -> bool)
    requires
        forall|i: int| 0 <= i < s.len() ==> pass(#[trigger] s[i]),
    ensures
        s.filter(pass) == s,
    decreases s.len(),
{
    reveal(Seq::filter);
    if s.len() > 0 {
        let front = s.drop_last();
        assert forall|i: int| 0 <= i < front.len() implies pass(#[trigger] front[i]) by {
            assert(front[i] == s[i]);
        }
        lemma_filter_keeps_all(front, pass);
        assert(pass(s[s.len() - 1]));
        assert(front.push(s.last()) =~= s);
    } else {
        assert(s.filter(pass) =~= s);
    }
}

/// A filter that no element passes keeps nothing.
pub proof fn lemma_filter_keeps_none<A>(s: Seq<A>, pass: spec_fn(A) -> bool)
    requires
        forall|i: int| 0 <= i < s.len() ==> !pass(#[trigger] s[i]),
    ensures
        s.filter(pass) == Seq::<A>::empty(),
{
    lemma_filter_keeps(s, pass);
    let kept = s.filter(pass);
    if kept.len() > 0 {
        assert(pass(kept[0]) && s.contains(kept[0]));
        let m = choose|m: int| 0 <= m < s.len() && s[m] == kept[0];
        assert(!pass(s[m]));
    }
    assert(kept =~= Seq::<A>::empty());
}

/// Filtering the images gives the images of the filtered, where an image
/// passes exactly when what it is the image of does.
pub proof fn lemma_filter_of_images<A, B>(
    s: Seq<A>,
    image: spec_fn(A) -> B,
    pass: spec_fn(A) -> bool,
    image_passes: spec_fn(B) -> bool,
)
    requires
        forall|i: int| 0 <= i < s.len() ==> image_passes(image(#[trigger] s[i])) == pass(s[i]),
    ensures
        s.map_values(image).filter(image_passes) == s.filter(pass).map_values(image),
    decreases s.len(),
{
    reveal(Seq::filter);
    let images = s.map_values(image);
    if s.len() > 0 {
        let front = s.drop_last();
        assert forall|i: int| 0 <= i < front.len() implies image_passes(image(#[trigger] front[i]))
            == pass(front[i]) by {
            assert(front[i] == s[i]);
        }
        lemma_filter_of_images(front, image, pass, image_passes);
        assert(images.drop_last() =~= front.map_values(image));
        assert(images.last() == image(s.last()));
        assert(image_passes(image(s[s.len() - 1])) == pass(s[s.len() - 1]));
        if pass(s.last()) {
            assert(front.filter(pass).push(s.last()).map_values(image) =~= front.filter(
                pass,
            ).map_values(image).push(image(s.last())));
        }
    } else {
        assert(images.filter(image_passes) =~= s.filter(pass).map_values(image));
    }
}

} // verus!
