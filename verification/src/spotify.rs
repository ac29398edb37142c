//! The domain entities fetched from the remote service, and the client and
//! player that command it.
use vstd::prelude::*;

pub mod album;
pub mod artist;
pub mod client;
pub mod device;
pub mod now_playing;
pub mod player;
pub mod search_results;
pub mod song;

verus! {

/// A display name paired with the remote identifier it stands for.
pub type NameAndId = (String, String);

/// A copy of the pairs, equal to the original pair for pair.
pub fn clone_name_ids(v: &Vec<NameAndId>) -> (r: Vec<NameAndId>)
    ensures
        r@ == v@,
{
    let mut out = Vec::<NameAndId>::new();
    for i in 0..v.len()
        invariant
            out@.len() == i,
            forall|j: int| 0 <= j < i ==> out@[j] == v@[j],
    {
        let pair = (v[i].0.clone(), v[i].1.clone());
        proof {
            assert(pair == v@[i as int]);
        }
        out.push(pair);
    }
    proof {
        assert(out@ =~= v@);
    }
    out
}

/// Whether two pair lists carry the same names and ids in the same order.
pub fn name_id_vecs_equal(a: &Vec<NameAndId>, b: &Vec<NameAndId>) -> (r: bool)
    ensures
        r <==> a.deep_view() == b.deep_view(),
{
    if a.len() != b.len() {
        proof {
            assert(a.deep_view().len() == a@.len());
            assert(b.deep_view().len() == b@.len());
        }
        return false;
    }
    for i in 0..a.len()
        invariant
            a@.len() == b@.len(),
            forall|j: int| 0 <= j < i ==> a.deep_view()[j] == b.deep_view()[j],
    {
        proof {
            assert(a.deep_view()[i as int] == (a@[i as int].0@, a@[i as int].1@));
            assert(b.deep_view()[i as int] == (b@[i as int].0@, b@[i as int].1@));
        }
        if !a[i].0.eq(&b[i].0) || !a[i].1.eq(&b[i].1) {
            return false;
        }
    }
    proof {
        assert(a.deep_view() =~= b.deep_view());
    }
    true
}

} // verus!
