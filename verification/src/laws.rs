use crate::cube::Cube;
use crate::cube::EDGE_WORDS;
use vstd::prelude::*;

verus! {

/// Whatever a cube was built from, `edges` returns `EDGE_WORDS` words: never
/// more, never fewer.
pub proof fn lemma_edges_have_fixed_length(cube: Cube, words: Seq<u64>)
    requires
        words == cube@,
    ensures
        words.len() == EDGE_WORDS,
{
    cube.lemma_word_count();
}

/// Two calls of `edges` on one cube return the same words.
pub proof fn lemma_edges_repeatable(cube: Cube, first: Seq<u64>, second: Seq<u64>)
    requires
        first == cube@,
        second == cube@,
    ensures
        first == second,
{
}

/// A copy that `edges` returned is the caller's own. After the caller has
/// overwritten the word at `at` with `word`, a later call still returns what
/// the first one did, and so differs from the changed copy wherever the new
/// word differs from the old one.
pub proof fn lemma_edges_copy_is_detached(
    cube: Cube,
    copy: Seq<u64>,
    at: int,
    word: u64,
    later: Seq<u64>,
)
    requires
        copy == cube@,
        0 <= at < copy.len(),
        later == cube@,
    ensures
        later == copy,
        word != copy[at] ==> later != copy.update(at, word),
{
    assert(copy.update(at, word)[at] == word);
}

/// What `edges` returns depends on the words its own cube was built from and
/// on nothing else: two cubes return the same words exactly when they were
/// built from the same words.
pub proof fn lemma_edges_tell_states_apart(
    raw_a: [u64; EDGE_WORDS],
    raw_b: [u64; EDGE_WORDS],
    cube_a: Cube,
    cube_b: Cube,
    words_a: Seq<u64>,
    words_b: Seq<u64>,
)
    requires
        cube_a@ == raw_a@,
        cube_b@ == raw_b@,
        words_a == cube_a@,
        words_b == cube_b@,
    ensures
        words_a == raw_a@,
        words_b == raw_b@,
        words_a == words_b <==> raw_a == raw_b,
{
    if words_a == words_b {
        assert(raw_a =~= raw_b);
    }
}

} // verus!
