use vstd::prelude::*;

verus! {

/// An identity as the target agent lists it: the wire encoding of its public
/// key and its free-form comment.
pub struct Identity {
    pub pubkey: Vec<u8>,
    pub comment: String,
}

impl Identity {
    pub fn new(pubkey: Vec<u8>, comment: String) -> (r: Identity)
        ensures
            r.pubkey@ == pubkey@,
            r.comment@ == comment@,
    {
        Identity { pubkey, comment }
    }
}

/// The label used when no listed identity holds the requested key.
pub open spec fn unknown_identity() -> Seq<char> {
    "<unknown identity>"@
}

/// `i` is the position of the first identity in `ids` whose key is `key`.
pub open spec fn is_first_match(ids: Seq<Identity>, key: Seq<u8>, i: int) -> bool {
    &&& 0 <= i < ids.len()
    &&& ids[i].pubkey@ == key
    &&& forall|j: int| 0 <= j < i ==> ids[j].pubkey@ != key
}

/// Some identity in `ids` holds `key`.
pub open spec fn holds_key(ids: Seq<Identity>, key: Seq<u8>) -> bool {
    exists|i: int| 0 <= i < ids.len() && ids[i].pubkey@ == key
}

/// The label of `key` among `ids`: the comment of the first identity whose key
/// is byte for byte `key`, or the unknown-identity label when there is none.
pub open spec fn label_for(ids: Seq<Identity>, key: Seq<u8>) -> Seq<char> {
    if exists|i: int| is_first_match(ids, key, i) {
        ids[choose|i: int| is_first_match(ids, key, i)].comment@
    } else {
        unknown_identity()
    }
}

/// There is at most one first match.
proof fn lemma_first_match_unique(ids: Seq<Identity>, key: Seq<u8>, i: int, k: int)
    requires
        is_first_match(ids, key, i),
        is_first_match(ids, key, k),
    ensures
        i == k,
{
    if i < k {
        assert(ids[i].pubkey@ != key);
    } else if k < i {
        assert(ids[k].pubkey@ != key);
    }
}

/// A key held by some identity has a first match.
pub proof fn lemma_first_match_exists(ids: Seq<Identity>, key: Seq<u8>)
    requires
        holds_key(ids, key),
    ensures
        exists|i: int| is_first_match(ids, key, i),
    decreases ids.len(),
{
    let w = choose|i: int| 0 <= i < ids.len() && ids[i].pubkey@ == key;
    if ids[0].pubkey@ == key {
        assert(is_first_match(ids, key, 0));
    } else {
        let rest = ids.drop_first();
        assert(rest[w - 1] == ids[w]);
        lemma_first_match_exists(rest, key);
        let k = choose|k: int| is_first_match(rest, key, k);
        assert forall|j: int| 0 <= j < k + 1 implies ids[j].pubkey@ != key by {
            if j > 0 {
                assert(ids[j] == rest[j - 1]);
            }
        }
        assert(is_first_match(ids, key, k + 1));
    }
}

/// Whether two keys are equal byte for byte.
pub fn same_key(a: &Vec<u8>, b: &Vec<u8>) -> (r: bool)
    ensures
        r == (a@ == b@),
{
    if a.len() != b.len() {
        return false;
    }
    let mut i: usize = 0;
    while i < a.len()
        invariant
            a.len() == b.len(),
            i <= a.len(),
            forall|j: int| 0 <= j < i ==> a@[j] == b@[j],
        decreases a.len() - i,
    {
        if a[i] != b[i] {
            return false;
        }
        i = i + 1;
    }
    assert(a@ =~= b@);
    true
}

/// The label of the identity that holds `key`: the comment of the first
/// identity in list order whose key equals `key`, or `<unknown identity>`.
pub fn find_label(identities: &Vec<Identity>, key: &Vec<u8>) -> (r: String)
    ensures
        r@ == label_for(identities@, key@),
        holds_key(identities@, key@) ==> exists|i: int|
            is_first_match(identities@, key@, i) && r@ == identities@[i].comment@,
        !holds_key(identities@, key@) ==> r@ == unknown_identity(),
{
    let mut i: usize = 0;
    while i < identities.len()
        invariant
            i <= identities.len(),
            forall|j: int| 0 <= j < i ==> identities@[j].pubkey@ != key@,
        decreases identities.len() - i,
    {
        if same_key(&identities[i].pubkey, key) {
            let ghost ids = identities@;
            assert(is_first_match(ids, key@, i as int));
            assert(holds_key(ids, key@));
            proof {
                let c = choose|k: int| is_first_match(ids, key@, k);
                lemma_first_match_unique(ids, key@, i as int, c);
            }
            return identities[i].comment.clone();
        }
        i = i + 1;
    }
    assert(!holds_key(identities@, key@));
    assert(!exists|k: int| is_first_match(identities@, key@, k));
    let r = String::from_str("<unknown identity>");
    r
}

} // verus!
