//! The lists of SSH hosts: saved, pinned, hidden and shown.
use crate::text::{same_text, texts};
use vstd::prelude::*;

verus! {

/// A host that was deleted a moment ago and can still come back. Times are milliseconds
/// of a monotonic clock.
#[derive(Debug)]
pub struct SshDeleteUndo {
    pub host: String,
    pub saved_index: Option<usize>,
    pub pinned_index: Option<usize>,
    pub was_hidden: bool,
    pub from_config: bool,
    pub started_at_ms: u64,
}

/// The host lists, the pending undo, and the hosts whose stored password is now due to
/// be deleted.
#[derive(Debug)]
pub struct HostState {
    pub saved: Vec<String>,
    pub pinned: Vec<String>,
    pub hidden: Vec<String>,
    pub listed: Vec<String>,
    pub undo: Option<SshDeleteUndo>,
    pub undo_bar: bool,
    pub undo_hover: bool,
    pub expired_credentials: Vec<String>,
}

/// How long a deletion can be undone, in milliseconds.
pub const SSH_DELETE_UNDO_MS: u64 = 8000;

/// How many hosts are remembered.
pub const SAVED_HOSTS_CAP: usize = 20;

/// `list` without the entries that equal `host`.
pub open spec fn without(list: Seq<Seq<char>>, host: Seq<char>) -> Seq<Seq<char>>
    decreases list.len(),
{
    if list.len() == 0 {
        Seq::empty()
    } else if list.last() == host {
        without(list.drop_last(), host)
    } else {
        without(list.drop_last(), host).push(list.last())
    }
}

/// Where `host` first stands in `list`.
pub open spec fn first_index(list: Seq<Seq<char>>, host: Seq<char>) -> Option<int>
    decreases list.len(),
{
    if list.len() == 0 {
        None
    } else {
        match first_index(list.drop_last(), host) {
            Some(i) => Some(i),
            None => if list.last() == host {
                Some(list.len() - 1)
            } else {
                None
            },
        }
    }
}

/// `host` occurs at most once.
pub open spec fn at_most_once(list: Seq<Seq<char>>, host: Seq<char>) -> bool {
    forall|i: int, j: int|
        0 <= i < list.len() && 0 <= j < list.len() && #[trigger] list[i] == host
            && #[trigger] list[j] == host ==> i == j
}

/// `list` with `host` at `index`, or at the end where the list is shorter.
pub open spec fn put_back(list: Seq<Seq<char>>, index: Option<usize>, host: Seq<char>) -> Seq<
    Seq<char>,
> {
    match index {
        Some(i) => list.insert(
            if i <= list.len() {
                i as int
            } else {
                list.len() as int
            },
            host,
        ),
        None => list,
    }
}

pub proof fn lemma_without_push(list: Seq<Seq<char>>, x: Seq<char>, host: Seq<char>)
    ensures
        without(list.push(x), host) == (if x == host {
            without(list, host)
        } else {
            without(list, host).push(x)
        }),
{
    assert(list.push(x).drop_last() =~= list);
}

pub proof fn lemma_without_absent(list: Seq<Seq<char>>, host: Seq<char>)
    ensures
        !without(list, host).contains(host),
        !list.contains(host) ==> without(list, host) == list,
        without(list, host).len() <= list.len(),
    decreases list.len(),
{
    if list.len() > 0 {
        let front = list.drop_last();
        lemma_without_absent(front, host);
        let w = without(front, host);
        if list.last() != host {
            assert forall|i: int| 0 <= i < w.push(list.last()).len() implies w.push(
                list.last(),
            )[i] != host by {
                if i < w.len() {
                    assert(w.contains(w[i]));
                }
            }
        }
        if !list.contains(host) {
            assert(list.contains(list[list.len() - 1]));
            assert(!front.contains(host)) by {
                if front.contains(host) {
                    let i = choose|i: int| 0 <= i < front.len() && front[i] == host;
                    assert(list[i] == host);
                }
            }
            assert(front.push(list.last()) =~= list);
        }
    }
}

pub proof fn lemma_first_index(list: Seq<Seq<char>>, host: Seq<char>)
    ensures
        first_index(list, host) is Some <==> list.contains(host),
        first_index(list, host) matches Some(i) ==> {
            &&& 0 <= i < list.len()
            &&& list[i] == host
            &&& forall|j: int| 0 <= j < i ==> list[j] != host
        },
    decreases list.len(),
{
    if list.len() > 0 {
        let front = list.drop_last();
        lemma_first_index(front, host);
        assert(forall|j: int| 0 <= j < front.len() ==> front[j] == list[j]);
        if front.contains(host) {
            let i = choose|i: int| 0 <= i < front.len() && front[i] == host;
            assert(list[i] == host);
        } else {
            assert(forall|j: int| 0 <= j < front.len() ==> front.contains(#[trigger] front[j]));
            if list.last() == host {
                assert(list[list.len() - 1] == host);
            } else if list.contains(host) {
                let i = choose|i: int| 0 <= i < list.len() && list[i] == host;
                assert(front[i] == host);
            }
        }
    }
}

proof fn lemma_without_split(list: Seq<Seq<char>>, k: int, host: Seq<char>)
    requires
        0 <= k < list.len(),
        list[k] == host,
        at_most_once(list, host),
    ensures
        without(list, host) == list.remove(k),
    decreases list.len(),
{
    let front = list.drop_last();
    if k == list.len() - 1 {
        assert(!front.contains(host)) by {
            if front.contains(host) {
                let i = choose|i: int| 0 <= i < front.len() && front[i] == host;
                assert(list[i] == host);
            }
        }
        lemma_without_absent(front, host);
        assert(list.remove(k) =~= front);
    } else {
        assert(front[k] == host);
        assert(at_most_once(front, host)) by {
            assert forall|i: int, j: int|
                0 <= i < front.len() && 0 <= j < front.len() && #[trigger] front[i] == host
                    && #[trigger] front[j] == host implies i == j by {
                assert(list[i] == host && list[j] == host);
            }
        }
        lemma_without_split(front, k, host);
        assert(list.last() != host);
        assert(list.remove(k) =~= front.remove(k).push(list.last()));
    }
}

/// Taking a host out of a list and putting it back at the index where it stood gives
/// the list again, where the host stood in it once or not at all.
pub proof fn put_back_undoes_without(list: Seq<Seq<char>>, host: Seq<char>)
    requires
        at_most_once(list, host),
        list.len() <= usize::MAX,
    ensures
        put_back(
            without(without(list, host), host),
            match first_index(list, host) {
                Some(i) => Some(i as usize),
                None => None,
            },
            host,
        ) == list,
{
    lemma_first_index(list, host);
    lemma_without_absent(list, host);
    lemma_without_absent(without(list, host), host);
    match first_index(list, host) {
        Some(i) => {
            lemma_without_split(list, i, host);
            assert(list.remove(i).insert(i, host) =~= list);
        },
        None => {},
    }
}

/// Whether `host` is among the entries.
pub fn lists_host(list: &Vec<String>, host: &str) -> (r: bool)
    ensures
        r == texts(list@).contains(host@),
{
    match host_position(list, host) {
        Some(_) => true,
        None => false,
    }
}

/// Where `host` first stands.
pub fn host_position(list: &Vec<String>, host: &str) -> (r: Option<usize>)
    ensures
        r is Some <==> first_index(texts(list@), host@) is Some,
        r matches Some(i) ==> first_index(texts(list@), host@) == Some(i as int) && i < list@.len(),
        r is Some <==> texts(list@).contains(host@),
{
    let mut i: usize = 0;
    proof {
        lemma_first_index(texts(list@), host@);
    }
    while i < list.len()
        invariant
            i <= list@.len(),
            forall|j: int| 0 <= j < i ==> texts(list@)[j] != host@,
        decreases list@.len() - i,
    {
        assert(texts(list@)[i as int] == list@[i as int]@);
        if same_text(list[i].as_str(), host) {
            proof {
                lemma_first_index(texts(list@), host@);
            }
            return Some(i);
        }
        i += 1;
    }
    None
}

/// Removes every entry that equals `host`.
pub fn remove_host(list: &mut Vec<String>, host: &str)
    ensures
        texts(final(list)@) == without(texts(old(list)@), host@),
        final(list)@.len() <= old(list)@.len(),
{
    let ghost before = list@;
    let mut i: usize = 0;
    let ghost mut seen: int = 0;
    proof {
        assert(texts(before).take(0) =~= Seq::<Seq<char>>::empty());
        assert(texts(list@).take(0) =~= Seq::<Seq<char>>::empty());
    }
    while i < list.len()
        invariant
            i <= list@.len(),
            0 <= seen <= before.len(),
            list@.len() - i == before.len() - seen,
            i <= seen,
            forall|k: int| i <= k < list@.len() ==> list@[k] == before[seen - i + k],
            texts(list@).take(i as int) == without(texts(before).take(seen), host@),
        decreases list@.len() - i,
    {
        let ghost now = list@;
        proof {
            assert(now[i as int] == before[seen]);
            assert(texts(before).take(seen + 1) =~= texts(before).take(seen).push(
                before[seen]@,
            ));
            lemma_without_push(texts(before).take(seen), before[seen]@, host@);
        }
        if same_text(list[i].as_str(), host) {
            let gone = list.remove(i);
            proof {
                assert(texts(list@).take(i as int) =~= texts(now).take(i as int));
            }
        } else {
            proof {
                assert(texts(now).take(i + 1) =~= texts(now).take(i as int).push(now[i as int]@));
            }
            i += 1;
        }
        proof {
            seen = seen + 1;
        }
    }
    proof {
        assert(texts(before).take(seen) =~= texts(before));
        assert(texts(list@).take(i as int) =~= texts(list@));
    }
}

/// Puts `host` into the list at `index`, or at the end where the list is shorter.
fn insert_host(list: &mut Vec<String>, index: Option<usize>, host: &str)
    ensures
        texts(final(list)@) == put_back(texts(old(list)@), index, host@),
{
    let ghost before = texts(list@);
    if let Some(i) = index {
        let at: usize = if i <= list.len() {
            i
        } else {
            list.len()
        };
        list.insert(at, host.to_owned());
        proof {
            assert(texts(list@) =~= before.insert(at as int, host@));
        }
    }
}

/// Takes a host out of the lists and reports where it stood in the first two and
/// whether it was hidden already. A host that comes from the user's SSH configuration
/// is hidden, because its entry there stays.
pub fn remove_ssh_host_from_lists(
    host: &str,
    from_config: bool,
    saved: &mut Vec<String>,
    pinned: &mut Vec<String>,
    hidden: &mut Vec<String>,
) -> (r: (Option<usize>, Option<usize>, bool))
    ensures
        texts(final(saved)@) == without(texts(old(saved)@), host@),
        texts(final(pinned)@) == without(texts(old(pinned)@), host@),
        r.2 == texts(old(hidden)@).contains(host@),
        texts(final(hidden)@) == (if from_config && !r.2 {
            texts(old(hidden)@).push(host@)
        } else {
            texts(old(hidden)@)
        }),
        r.0 == (match first_index(texts(old(saved)@), host@) {
            Some(i) => Some(i as usize),
            None => None,
        }),
        r.1 == (match first_index(texts(old(pinned)@), host@) {
            Some(i) => Some(i as usize),
            None => None,
        }),
{
    let saved_index: Option<usize> = host_position(saved, host);
    let pinned_index: Option<usize> = host_position(pinned, host);
    let was_hidden: bool = lists_host(hidden, host);
    remove_host(saved, host);
    remove_host(pinned, host);
    let ghost before = texts(hidden@);
    if from_config && !was_hidden {
        hidden.push(host.to_owned());
        proof {
            assert(texts(hidden@) =~= before.push(host@));
        }
    }
    (saved_index, pinned_index, was_hidden)
}

/// The lists after a host went back to where it stood.
pub fn restore_ssh_host_to_lists(
    host: &str,
    saved_index: Option<usize>,
    pinned_index: Option<usize>,
    was_hidden: bool,
    saved: &mut Vec<String>,
    pinned: &mut Vec<String>,
    hidden: &mut Vec<String>,
)
    ensures
        texts(final(saved)@) == put_back(without(texts(old(saved)@), host@), saved_index, host@),
        texts(final(pinned)@) == put_back(
            without(texts(old(pinned)@), host@),
            pinned_index,
            host@,
        ),
        texts(final(hidden)@) == (if was_hidden {
            texts(old(hidden)@)
        } else {
            without(texts(old(hidden)@), host@)
        }),
{
    remove_host(saved, host);
    insert_host(saved, saved_index, host);
    remove_host(pinned, host);
    insert_host(pinned, pinned_index, host);
    if !was_hidden {
        remove_host(hidden, host);
    }
}

/// The hidden list after a removal and its undo is the one before.
pub proof fn hidden_list_is_restored(hidden: Seq<Seq<char>>, host: Seq<char>, from_config: bool)
    ensures
        ({
            let was_hidden = hidden.contains(host);
            let removed = if from_config && !was_hidden {
                hidden.push(host)
            } else {
                hidden
            };
            hidden == (if was_hidden {
                removed
            } else {
                without(removed, host)
            })
        }),
{
    lemma_without_absent(hidden, host);
    lemma_without_push(hidden, host, host);
}

/// Taking a host out leaves every other entry, in its order.
pub proof fn other_hosts_stay(list: Seq<Seq<char>>, host: Seq<char>)
    ensures
        without(list, host) == list.filter(|h: Seq<char>| h != host),
        forall|h: Seq<char>| h != host ==> (#[trigger] without(list, host).contains(h)
            <==> list.contains(h)),
        !without(list, host).contains(host),
    decreases list.len(),
{
    reveal(Seq::filter);
    let pred = |h: Seq<char>| h != host;
    if list.len() > 0 {
        other_hosts_stay(list.drop_last(), host);
    } else {
        assert(without(list, host) =~= list);
    }
    assert(without(list, host) == list.filter(pred));
    assert forall|h: Seq<char>| h != host implies (#[trigger] without(list, host).contains(h)
        <==> list.contains(h)) by {
        if list.contains(h) {
            let i = choose|i: int| 0 <= i < list.len() && list[i] == h;
            list.lemma_filter_contains(pred, i);
        }
        if without(list, host).contains(h) && list.len() > 0 {
            if list.drop_last().contains(h) {
                let i = choose|i: int| 0 <= i < list.len() - 1 && list.drop_last()[i] == h;
                assert(list[i] == h);
            } else {
                let k = choose|k: int|
                    0 <= k < without(list, host).len() && without(list, host)[k] == h;
                let rest = without(list.drop_last(), host);
                if k < rest.len() {
                    assert(rest[k] == h);
                    assert(rest.contains(h));
                }
                assert(list[list.len() - 1] == h);
            }
        }
    }
    lemma_without_absent(list, host);
}

/// A host that is put back stands at its place, at the end of a shorter list, and moves
/// nothing else; without a place the list stays.
pub proof fn put_back_inserts_one_host(list: Seq<Seq<char>>, index: Option<usize>, host: Seq<char>)
    ensures
        index is None ==> put_back(list, index, host) == list,
        index matches Some(i) ==> {
            let r = put_back(list, index, host);
            let at = if i <= list.len() {
                i as int
            } else {
                list.len() as int
            };
            &&& r.len() == list.len() + 1
            &&& r[at] == host
            &&& r.remove(at) == list
        },
{
    if let Some(i) = index {
        let at = if i <= list.len() {
            i as int
        } else {
            list.len() as int
        };
        assert(put_back(list, index, host).remove(at) =~= list);
    }
}

/// Removing a host takes it off the list and leaves every other one where it was.
pub proof fn removed_host_is_off_the_list(list: &mut Vec<String>, host: &str)
    requires
        call_ensures(remove_host, (list, host), ()),
    ensures
        !texts(final(list)@).contains(host@),
        forall|h: Seq<char>|
            h != host@ ==> (#[trigger] texts(final(list)@).contains(h) <==> texts(
                old(list)@,
            ).contains(h)),
        !texts(old(list)@).contains(host@) ==> texts(final(list)@) == texts(old(list)@),
{
    other_hosts_stay(texts(old(list)@), host@);
    if !texts(old(list)@).contains(host@) {
        lemma_without_absent(texts(old(list)@), host@);
    }
}

/// A host that is removed and put back with what the removal told is where it was in every
/// list, and so is every other host.
pub proof fn removal_is_undone(
    host: &str,
    from_config: bool,
    saved: &mut Vec<String>,
    pinned: &mut Vec<String>,
    hidden: &mut Vec<String>,
    r: (Option<usize>, Option<usize>, bool),
    saved2: &mut Vec<String>,
    pinned2: &mut Vec<String>,
    hidden2: &mut Vec<String>,
)
    requires
        call_ensures(remove_ssh_host_from_lists, (host, from_config, saved, pinned, hidden), r),
        call_ensures(
            restore_ssh_host_to_lists,
            (host, r.0, r.1, r.2, saved2, pinned2, hidden2),
            (),
        ),
        *saved2 == *final(saved),
        *pinned2 == *final(pinned),
        *hidden2 == *final(hidden),
        at_most_once(texts(old(saved)@), host@),
        at_most_once(texts(old(pinned)@), host@),
        old(saved)@.len() <= usize::MAX,
        old(pinned)@.len() <= usize::MAX,
    ensures
        texts(final(saved2)@) == texts(old(saved)@),
        texts(final(pinned2)@) == texts(old(pinned)@),
        texts(final(hidden2)@) == texts(old(hidden)@),
{
    let s = texts(old(saved)@);
    let p = texts(old(pinned)@);
    let h = texts(old(hidden)@);
    put_back_undoes_without(s, host@);
    put_back_undoes_without(p, host@);
    hidden_list_is_restored(h, host@, from_config);
    lemma_first_index(s, host@);
    lemma_first_index(p, host@);
    other_hosts_stay(s, host@);
    other_hosts_stay(p, host@);
    lemma_without_absent(without(s, host@), host@);
    lemma_without_absent(without(p, host@), host@);
}

/// A host is found where it stands first, and only where it stands.
pub proof fn host_is_found_where_it_stands(
    list: Vec<String>,
    host: &str,
    r: Option<usize>,
    listed: bool,
)
    requires
        call_ensures(host_position, (&list, host), r),
        call_ensures(lists_host, (&list, host), listed),
    ensures
        listed <==> exists|i: int| 0 <= i < list@.len() && (#[trigger] list@[i])@ == host@,
        r is Some <==> listed,
        r matches Some(i) ==> i < list@.len() && list@[i as int]@ == host@ && forall|j: int|
            0 <= j < i ==> (#[trigger] list@[j])@ != host@,
{
    let t = texts(list@);
    lemma_first_index(t, host@);
    if t.contains(host@) {
        let i = choose|i: int| 0 <= i < t.len() && t[i] == host@;
        assert(list@[i]@ == host@);
    }
    if exists|i: int| 0 <= i < list@.len() && (#[trigger] list@[i])@ == host@ {
        let i = choose|i: int| 0 <= i < list@.len() && (#[trigger] list@[i])@ == host@;
        assert(t[i] == host@);
    }
    if r is Some {
        assert forall|j: int| 0 <= j < r->0 implies (#[trigger] list@[j])@ != host@ by {
            assert(t[j] == list@[j]@);
        }
    }
}

} // verus!
