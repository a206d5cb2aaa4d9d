//! The server's destination table.
//!
//! An immutable mapping from listen port to target address, built once
//! at startup from the `target:port` pairs given on the command line.
//! An empty target defaults to the loopback address with the same port.
//! When one port is named twice, the pair given last wins.

use vstd::prelude::*;

verus! {

use crate::text::dec_digits;

/// The default target for `port`: the same port on the local host.
pub open spec fn localhost_target(port: u16) -> Seq<char> {
    "127.0.0.1:"@ + dec_digits(port as nat)
}

/// The target a pair names: its own text, or the loopback default when
/// the text is empty.
pub open spec fn resolved_target(target: Seq<char>, port: u16) -> Seq<char> {
    if target.len() == 0 {
        localhost_target(port)
    } else {
        target
    }
}

/// The mapping described by `target:port` pairs, later pairs winning.
pub open spec fn table_of(pairs: Seq<(String, u16)>) -> Map<u16, Seq<char>>
    decreases pairs.len(),
{
    if pairs.len() == 0 {
        Map::empty()
    } else {
        table_of(pairs.drop_last()).insert(
            pairs.last().1,
            resolved_target(pairs.last().0@, pairs.last().1),
        )
    }
}

/// The mapping held by a list of table entries, later entries winning.
pub open spec fn entries_map(entries: Seq<(u16, String)>) -> Map<u16, Seq<char>>
    decreases entries.len(),
{
    if entries.len() == 0 {
        Map::empty()
    } else {
        entries_map(entries.drop_last()).insert(entries.last().0, entries.last().1@)
    }
}

/// Writes the loopback target text for `port`.
pub fn localhost_target_text(port: u16) -> (r: String)
    ensures
        r@ == localhost_target(port),
{
    let mut r = String::from_str("127.0.0.1:");
    let digits = crate::text::u16_to_dec(port);
    r.append(digits.as_str());
    r
}

/// Immutable mapping from listen port to target address.
///
/// Its view is the finite map the entries describe; when a port was
/// entered twice, the entry made last is the one the view holds.
pub struct DestinationTable {
    entries: Vec<(u16, String)>,
}

impl View for DestinationTable {
    type V = Map<u16, Seq<char>>;

    closed spec fn view(&self) -> Map<u16, Seq<char>> {
        entries_map(self.entries@)
    }
}

/// An entry whose port no later entry repeats decides the map at that
/// port.
proof fn lemma_entries_map_at(entries: Seq<(u16, String)>, i: int)
    requires
        0 <= i < entries.len(),
        forall|j: int| i < j < entries.len() ==> (#[trigger] entries[j]).0 != entries[i].0,
    ensures
        entries_map(entries).contains_key(entries[i].0),
        entries_map(entries)[entries[i].0] == entries[i].1@,
    decreases entries.len(),
{
    if i < entries.len() - 1 {
        assert(entries.drop_last()[i] == entries[i]);
        lemma_entries_map_at(entries.drop_last(), i);
    }
}

/// A port no entry holds is not in the map.
proof fn lemma_entries_map_absent(entries: Seq<(u16, String)>, port: u16)
    requires
        forall|j: int| 0 <= j < entries.len() ==> (#[trigger] entries[j]).0 != port,
    ensures
        !entries_map(entries).contains_key(port),
    decreases entries.len(),
{
    if entries.len() > 0 {
        lemma_entries_map_absent(entries.drop_last(), port);
    }
}

impl DestinationTable {
    /// An empty table.
    pub fn new() -> (r: Self)
        ensures
            r@ == Map::<u16, Seq<char>>::empty(),
    {
        DestinationTable { entries: Vec::new() }
    }

    /// Maps `port` to `target`, replacing what an earlier entry said of
    /// `port`.
    pub fn insert(&mut self, port: u16, target: String)
        ensures
            final(self)@ == old(self)@.insert(port, target@),
    {
        self.entries.push((port, target));
        proof {
            assert(self.entries@.drop_last() =~= old(self).entries@);
        }
    }

    /// The target `port` is mapped to, if any.
    pub fn lookup(&self, port: u16) -> (r: Option<&String>)
        ensures
            match r {
                Some(target) => self@.contains_key(port) && target@ == self@[port],
                None => !self@.contains_key(port),
            },
    {
        let n = self.entries.len();
        let mut i: usize = n;
        while i > 0
            invariant
                0 <= i <= n,
                n == self.entries@.len(),
                forall|j: int| i <= j < n ==> (#[trigger] self.entries@[j]).0 != port,
            decreases i,
        {
            i -= 1;
            if self.entries[i].0 == port {
                proof {
                    lemma_entries_map_at(self.entries@, i as int);
                }
                return Some(&self.entries[i].1);
            }
        }
        proof {
            lemma_entries_map_absent(self.entries@, port);
        }
        None
    }

    /// Builds the table from the `target:port` pairs given at startup.
    pub fn build(pairs: &Vec<(String, u16)>) -> (r: Self)
        ensures
            r@ == table_of(pairs@),
    {
        let mut table = DestinationTable::new();
        let n = pairs.len();
        let mut i: usize = 0;
        while i < n
            invariant
                0 <= i <= n,
                n == pairs@.len(),
                table@ == table_of(pairs@.take(i as int)),
            decreases n - i,
        {
            let (target, port) = (&pairs[i].0, pairs[i].1);
            let resolved = if target.as_str().is_empty() {
                localhost_target_text(port)
            } else {
                target.clone()
            };
            table.insert(port, resolved);
            proof {
                assert(pairs@.take(i + 1).drop_last() =~= pairs@.take(i as int));
                assert(pairs@.take(i + 1).last() == pairs@[i as int]);
            }
            i += 1;
        }
        proof {
            assert(pairs@.take(n as int) =~= pairs@);
        }
        table
    }
}

} // verus!
