//! Artifact naming: random names for results and the paths they are stored at.
use vstd::prelude::*;
use rand::Rng;

verus! {

/// Characters that artifact names are drawn from.
pub const CHARSET: &'static str = "ABCDEFGHIJKLMNOPQRSTUVWXYZabcdefghijklmnopqrstuvwxyz0123456789)(*&^%$#@!~";

/// Length of an artifact name.
pub const NAME_LENGTH: usize = 8;

/// An artifact name: `NAME_LENGTH` characters of `CHARSET`.
pub open spec fn is_artifact_name(name: Seq<char>) -> bool {
    &&& name.len() == NAME_LENGTH
    &&& forall|i: int| 0 <= i < name.len() ==> CHARSET@.contains(#[trigger] name[i])
}

/// The path of file `name.extension` in `folder`; an empty folder means the
/// current one.
pub open spec fn resolved(folder: Seq<char>, name: Seq<char>, extension: Seq<char>) -> Seq<char> {
    let file = name + seq!['.'] + extension;
    if folder.len() == 0 {
        file
    } else if folder.last() == '/' {
        folder + file
    } else {
        folder + seq!['/'] + file
    }
}

/// Relies on rand's `thread_rng` and `Rng::gen_range`, which returns a value
/// of the half-open range `0..bound` (and panics when it is empty).
#[verifier::external_body]
fn random_index(bound: usize) -> (r: usize)
    requires
        bound > 0,
    ensures
        r < bound,
{
    rand::thread_rng().gen_range(0..bound)
}

/// Indices that pick an artifact name: `NAME_LENGTH` of them, each inside `CHARSET`.
pub open spec fn valid_indices(indices: Seq<usize>) -> bool {
    &&& indices.len() == NAME_LENGTH
    &&& forall|k: int| 0 <= k < indices.len() ==> #[trigger] indices[k] < CHARSET@.len()
}

/// The name whose k-th character is the `CHARSET` entry at the k-th index.
pub open spec fn name_of(indices: Seq<usize>) -> Seq<char> {
    Seq::new(indices.len(), |k: int| CHARSET@[indices[k] as int])
}

/// A name spelled by the `CHARSET` entries at `indices`.
pub fn name_from_indices(indices: &Vec<usize>) -> (r: String)
    requires
        valid_indices(indices@),
    ensures
        r@ == name_of(indices@),
        is_artifact_name(r@),
{
    proof {
        reveal_strlit("ABCDEFGHIJKLMNOPQRSTUVWXYZabcdefghijklmnopqrstuvwxyz0123456789)(*&^%$#@!~");
    }
    let charset = CHARSET;
    assert(charset.is_ascii());
    let mut name = String::new();
    let mut k: usize = 0;
    while k < indices.len()
        invariant
            k <= indices@.len(),
            valid_indices(indices@),
            charset@ == CHARSET@,
            CHARSET@.len() == 73,
            charset.is_ascii(),
            name@ == name_of(indices@.subrange(0, k as int)),
        decreases indices@.len() - k,
    {
        let idx = indices[k];
        assert(idx < charset@.len());
        let piece = charset.substring_ascii(idx, idx + 1);
        assert(piece@ =~= seq![charset@[idx as int]]);
        name.append(piece);
        assert(name@ =~= name_of(indices@.subrange(0, k + 1)));
        k = k + 1;
    }
    assert(indices@.subrange(0, k as int) =~= indices@);
    assert forall|i: int| 0 <= i < name@.len() implies CHARSET@.contains(#[trigger] name@[i]) by {
        assert(CHARSET@[indices@[i] as int] == name@[i]);
    }
    name
}

/// A fresh random artifact name: `NAME_LENGTH` indices drawn uniformly below
/// the size of `CHARSET`, spelled out by [`name_from_indices`].
pub fn generate_strings() -> (r: String)
    ensures
        is_artifact_name(r@),
        exists|indices: Seq<usize>| valid_indices(indices) && r@ == name_of(indices),
{
    proof {
        reveal_strlit("ABCDEFGHIJKLMNOPQRSTUVWXYZabcdefghijklmnopqrstuvwxyz0123456789)(*&^%$#@!~");
    }
    let n = CHARSET.unicode_len();
    let mut indices: Vec<usize> = Vec::new();
    while indices.len() < NAME_LENGTH
        invariant
            indices@.len() <= NAME_LENGTH,
            n == CHARSET@.len(),
            n == 73,
            forall|k: int| 0 <= k < indices@.len() ==> #[trigger] indices@[k] < CHARSET@.len(),
        decreases NAME_LENGTH - indices@.len(),
    {
        indices.push(random_index(n));
    }
    name_from_indices(&indices)
}

/// The path of file `name.extension` in `folder`.
pub fn resolve(folder: &str, name: &str, extension: &str) -> (r: String)
    ensures
        r@ == resolved(folder@, name@, extension@),
{
    let mut path = String::from_str(folder);
    if folder.unicode_len() != 0 {
        let last = folder.get_char(folder.unicode_len() - 1);
        if last != '/' {
            path.append("/");
            proof {
                reveal_strlit("/");
            }
        }
    }
    path.append(name);
    path.append(".");
    path.append(extension);
    proof {
        reveal_strlit(".");
    }
    assert(path@ =~= resolved(folder@, name@, extension@));
    path
}

} // verus!
