use vstd::prelude::*;

verus! {

/// Firmware stage that a connected device is running.
#[derive(Debug, Clone, Copy, PartialEq, Eq, Structural)]
pub enum ConnectionType {
    Brom,
    Preloader,
    Da,
}

/// USB vendor id of MediaTek.
pub const MTK_VID: u16 = 0x0E8D;

/// The fixed, ordered table of recognised (vendor id, product id) pairs.
pub open spec fn known_ports_spec() -> Seq<(u16, u16, ConnectionType)> {
    seq![
        (0x0E8D, 0x0003, ConnectionType::Brom),
        (0x0E8D, 0x6000, ConnectionType::Preloader),
        (0x0E8D, 0x2000, ConnectionType::Preloader),
        (0x0E8D, 0x2001, ConnectionType::Da),
        (0x0E8D, 0x20FF, ConnectionType::Preloader),
        (0x1004, 0x6000, ConnectionType::Preloader),
    ]
}

/// The registry as an executable table, in the order that lookups walk it.
pub fn known_ports() -> (r: Vec<(u16, u16, ConnectionType)>)
    ensures
        r@ == known_ports_spec(),
{
    let r = vec![
        (MTK_VID, 0x0003u16, ConnectionType::Brom),
        (MTK_VID, 0x6000u16, ConnectionType::Preloader),
        (MTK_VID, 0x2000u16, ConnectionType::Preloader),
        (MTK_VID, 0x2001u16, ConnectionType::Da),
        (MTK_VID, 0x20FFu16, ConnectionType::Preloader),
        (0x1004u16, 0x6000u16, ConnectionType::Preloader),
    ];
    assert(r@ =~= known_ports_spec());
    r
}

/// Whether entry `i` of `table` carries the pair (vid, pid).
pub open spec fn entry_matches(table: Seq<(u16, u16, ConnectionType)>, i: int, vid: u16, pid: u16) -> bool {
    table[i].0 == vid && table[i].1 == pid
}

/// Whether the pair (vid, pid) occurs anywhere in the registry.
pub open spec fn is_known(vid: u16, pid: u16) -> bool {
    exists|i: int| 0 <= i < known_ports_spec().len() && entry_matches(known_ports_spec(), i, vid, pid)
}

/// The mode of the first entry of `table` carrying (vid, pid), if any.
pub open spec fn first_match(table: Seq<(u16, u16, ConnectionType)>, vid: u16, pid: u16) -> Option<ConnectionType>
    decreases table.len(),
{
    if table.len() == 0 {
        None
    } else if table[0].0 == vid && table[0].1 == pid {
        Some(table[0].2)
    } else {
        first_match(table.drop_first(), vid, pid)
    }
}

/// What the registry says of the pair (vid, pid).
pub open spec fn classify_spec(vid: u16, pid: u16) -> Option<ConnectionType> {
    first_match(known_ports_spec(), vid, pid)
}

/// Serial speed that the firmware of each stage runs at.
pub open spec fn baud_of(ct: ConnectionType) -> u32 {
    match ct {
        ConnectionType::Brom => 115_200,
        ConnectionType::Preloader | ConnectionType::Da => 921_600,
    }
}

/// The baud rate mandated for a connection type.
pub fn baud_rate(ct: ConnectionType) -> (r: u32)
    ensures
        r == baud_of(ct),
{
    match ct {
        ConnectionType::Brom => 115_200,
        ConnectionType::Preloader | ConnectionType::Da => 921_600,
    }
}

proof fn lemma_first_match_index(table: Seq<(u16, u16, ConnectionType)>, vid: u16, pid: u16, k: int)
    requires
        0 <= k <= table.len(),
        forall|j: int| 0 <= j < k ==> !entry_matches(table, j, vid, pid),
    ensures
        first_match(table, vid, pid) == first_match(table.subrange(k, table.len() as int), vid, pid),
    decreases k,
{
    if k > 0 {
        let rest = table.drop_first();
        assert(!entry_matches(table, 0, vid, pid));
        assert forall|j: int| 0 <= j < k - 1 implies !entry_matches(rest, j, vid, pid) by {
            assert(!entry_matches(table, j + 1, vid, pid));
        }
        lemma_first_match_index(rest, vid, pid, k - 1);
        assert(rest.subrange(k - 1, rest.len() as int) =~= table.subrange(k, table.len() as int));
    } else {
        assert(table.subrange(0, table.len() as int) =~= table);
    }
}

/// Looks up the connection type of a (vendor id, product id) pair; the first
/// matching entry of the registry wins.
pub fn classify(vid: u16, pid: u16) -> (r: Option<ConnectionType>)
    ensures
        r == classify_spec(vid, pid),
{
    let table = known_ports();
    let mut i: usize = 0;
    while i < table.len()
        invariant
            table@ == known_ports_spec(),
            0 <= i <= table@.len(),
            forall|j: int| 0 <= j < i ==> !entry_matches(table@, j, vid, pid),
        decreases table@.len() - i,
    {
        let (v, p, ct) = table[i];
        if v == vid && p == pid {
            proof {
                lemma_first_match_index(table@, vid, pid, i as int);
                let rest = table@.subrange(i as int, table@.len() as int);
                assert(rest[0] == table@[i as int]);
            }
            return Some(ct);
        }
        i = i + 1;
    }
    proof {
        lemma_first_match_index(table@, vid, pid, i as int);
        assert(table@.subrange(i as int, table@.len() as int).len() == 0);
    }
    None
}

/// The registry is consistent: no pair is listed with two different modes.
pub proof fn lemma_registry_consistent(i: int, j: int)
    requires
        0 <= i < known_ports_spec().len(),
        0 <= j < known_ports_spec().len(),
        known_ports_spec()[i].0 == known_ports_spec()[j].0,
        known_ports_spec()[i].1 == known_ports_spec()[j].1,
    ensures
        known_ports_spec()[i].2 == known_ports_spec()[j].2,
{
}

proof fn lemma_first_match_none(table: Seq<(u16, u16, ConnectionType)>, vid: u16, pid: u16)
    requires
        forall|j: int| 0 <= j < table.len() ==> !entry_matches(table, j, vid, pid),
    ensures
        first_match(table, vid, pid) is None,
    decreases table.len(),
{
    if table.len() > 0 {
        assert(!entry_matches(table, 0, vid, pid));
        let rest = table.drop_first();
        assert forall|j: int| 0 <= j < rest.len() implies !entry_matches(rest, j, vid, pid) by {
            assert(!entry_matches(table, j + 1, vid, pid));
        }
        lemma_first_match_none(rest, vid, pid);
    }
}

proof fn lemma_first_match_some(table: Seq<(u16, u16, ConnectionType)>, vid: u16, pid: u16, i: int)
    requires
        0 <= i < table.len(),
        entry_matches(table, i, vid, pid),
        forall|j: int| 0 <= j < table.len() && entry_matches(table, j, vid, pid) ==> table[j].2 == table[i].2,
    ensures
        first_match(table, vid, pid) == Some(table[i].2),
    decreases table.len(),
{
    if !entry_matches(table, 0, vid, pid) {
        let rest = table.drop_first();
        assert(entry_matches(rest, i - 1, vid, pid));
        assert forall|j: int| 0 <= j < rest.len() && entry_matches(rest, j, vid, pid) implies rest[j].2 == rest[i - 1].2 by {
            assert(entry_matches(table, j + 1, vid, pid));
        }
        lemma_first_match_some(rest, vid, pid, i - 1);
    }
}

/// Classification agrees with the table: an absent pair classifies to nothing,
/// and a listed pair classifies to the one mode that the table gives it.
pub proof fn lemma_classify_agrees(vid: u16, pid: u16)
    ensures
        !is_known(vid, pid) ==> classify_spec(vid, pid) is None,
        forall|i: int|
            0 <= i < known_ports_spec().len() && #[trigger] entry_matches(known_ports_spec(), i, vid, pid)
                ==> classify_spec(vid, pid) == Some(known_ports_spec()[i].2),
{
    let t = known_ports_spec();
    if !is_known(vid, pid) {
        lemma_first_match_none(t, vid, pid);
    }
    assert forall|i: int| 0 <= i < t.len() && #[trigger] entry_matches(t, i, vid, pid)
        implies classify_spec(vid, pid) == Some(t[i].2) by {
        assert forall|j: int| 0 <= j < t.len() && entry_matches(t, j, vid, pid) implies t[j].2 == t[i].2 by {
            lemma_registry_consistent(i, j);
        }
        lemma_first_match_some(t, vid, pid, i);
    }
}

} // verus!
