use crate::error::IndexError;
use vstd::prelude::*;
use vstd::string::StrSliceExecFns;

verus! {

/// What the resource scan learned of a token table.
#[derive(Debug)]
pub struct TableMetadataForToken {
    pub owner_address: String,
    pub table_type: String,
}

/// The handle form of `h`: `0x` and the characters after the first two,
/// left-padded with `0` to 64 of them. The leading two characters are taken
/// to be `0x` and are not looked at; a handle shorter than that has nothing
/// after them.
pub open spec fn standardized(h: Seq<char>) -> Seq<char> {
    let rest = if h.len() >= 2 {
        h.skip(2)
    } else {
        Seq::empty()
    };
    let pad: nat = if rest.len() < 64 {
        (64 - rest.len()) as nat
    } else {
        0
    };
    "0x"@ + Seq::new(pad, |i: int| '0') + rest
}

impl TableMetadataForToken {
    /// Brings a table handle into the form used as the owner map's key.
    pub fn standardize_handle(handle: &str) -> (r: String)
        ensures
            r@ == standardized(handle@),
    {
        let n = handle.unicode_len();
        let rest: &str = if n >= 2 {
            handle.substring_char(2, n)
        } else {
            handle.substring_char(n, n)
        };
        let k = rest.unicode_len();
        let mut r = String::from_str("0x");
        let mut i: usize = k;
        proof {
            reveal_strlit("0");
            assert(rest@ =~= if handle@.len() >= 2 {
                handle@.skip(2)
            } else {
                Seq::empty()
            });
            assert(r@ =~= "0x"@ + Seq::new(0, |j: int| '0'));
        }
        while i < 64
            invariant
                k <= i,
                k < 64 ==> i <= 64,
                k >= 64 ==> i == k,
                k == rest@.len(),
                r@ =~= "0x"@ + Seq::new((i - k) as nat, |j: int| '0'),
            decreases 64 - i,
        {
            r.append("0");
            i = i + 1;
            proof {
                reveal_strlit("0");
                assert(r@ =~= "0x"@ + Seq::new((i - k) as nat, |j: int| '0'));
            }
        }
        let ghost pre = r@;
        r.append(rest);
        proof {
            assert(pre =~= "0x"@ + Seq::new(
                if rest@.len() < 64 {
                    (64 - rest@.len()) as nat
                } else {
                    0
                },
                |j: int| '0',
            ));
            assert(r@ =~= standardized(handle@));
        }
        r
    }
}

/// The last metadata recorded for handle `h` in `es`.
pub open spec fn lookup(es: Seq<(String, TableMetadataForToken)>, h: Seq<char>) -> Option<
    TableMetadataForToken,
>
    decreases es.len(),
{
    if es.len() == 0 {
        None
    } else if es.last().0@ == h {
        Some(es.last().1)
    } else {
        lookup(es.drop_last(), h)
    }
}

/// Maps standardized table handles to what is known of their tables.
/// A handle recorded twice keeps its later metadata.
#[derive(Debug)]
pub struct TableHandleToOwner {
    entries: Vec<(String, TableMetadataForToken)>,
}

impl TableHandleToOwner {
    /// The metadata recorded for handle `h`.
    pub closed spec fn spec_get(&self, h: Seq<char>) -> Option<TableMetadataForToken> {
        lookup(self.entries@, h)
    }

    /// The handles recorded, in the order they were added.
    pub closed spec fn handles(&self) -> Seq<Seq<char>> {
        self.entries@.map_values(|e: (String, TableMetadataForToken)| e.0@)
    }

    pub fn new() -> (r: TableHandleToOwner)
        ensures
            forall|h: Seq<char>| r.spec_get(h) is None,
            r.handles().len() == 0,
    {
        TableHandleToOwner { entries: Vec::new() }
    }

    /// Records `meta` for `handle`, in place of what was recorded before.
    pub fn insert(&mut self, handle: String, meta: TableMetadataForToken)
        ensures
            forall|h: Seq<char>|
                #![trigger final(self).spec_get(h)]
                final(self).spec_get(h) == if h == handle@ {
                    Some(meta)
                } else {
                    old(self).spec_get(h)
                },
            final(self).handles() == old(self).handles().push(handle@),
    {
        let ghost h0 = handle@;
        self.entries.push((handle, meta));
        proof {
            assert(self.entries@.drop_last() =~= old(self).entries@);
            assert(self.handles() =~= old(self).handles().push(h0));
        }
    }

    /// The metadata recorded for `handle`.
    pub fn get(&self, handle: &str) -> (r: Option<&TableMetadataForToken>)
        ensures
            match r {
                Some(m) => self.spec_get(handle@) == Some(*m),
                None => self.spec_get(handle@) is None,
            },
    {
        let k = String::from_str(handle);
        let mut i: usize = self.entries.len();
        proof {
            assert(self.entries@.take(i as int) =~= self.entries@);
        }
        while i > 0
            invariant
                i <= self.entries@.len(),
                k@ == handle@,
                self.spec_get(handle@) == lookup(self.entries@.take(i as int), handle@),
            decreases i,
        {
            proof {
                assert(self.entries@.take(i as int).drop_last() =~= self.entries@.take(i - 1));
                assert(self.entries@.take(i as int).last() == self.entries@[i - 1]);
            }
            if self.entries[i - 1].0 == k {
                return Some(&self.entries[i - 1].1);
            }
            i = i - 1;
        }
        None
    }

    /// The handles recorded, in the order they were added.
    pub fn known_handles(&self) -> (r: Vec<String>)
        ensures
            r@.map_values(|s: String| s@) == self.handles(),
    {
        let mut r: Vec<String> = Vec::new();
        let mut i: usize = 0;
        while i < self.entries.len()
            invariant
                i <= self.entries@.len(),
                r@.map_values(|s: String| s@) =~= self.handles().take(i as int),
            decreases self.entries@.len() - i,
        {
            let ghost prev = r@;
            r.push(self.entries[i].0.clone());
            i = i + 1;
            proof {
                assert(r@.map_values(|s: String| s@) =~= prev.map_values(|s: String| s@).push(
                    self.entries@[i - 1].0@,
                ));
                assert(self.handles().take(i as int) =~= self.handles().take(i - 1).push(
                    self.handles()[i - 1],
                ));
            }
        }
        proof {
            assert(self.handles().take(i as int) =~= self.handles());
        }
        r
    }
}

/// `e` reports at `version` that `handle` has no owner in `owners`, with
/// the handle as given, in standard form, and the handles the map holds.
pub open spec fn owner_missing(
    e: IndexError,
    owners: TableHandleToOwner,
    handle: Seq<char>,
    version: i64,
) -> bool {
    e matches IndexError::OwnerNotFound { version: v, handle: h, standardized_handle: s, known_handles: k }
        && v == version && h@ == handle && s@ == standardized(handle) && k@.map_values(
        |x: String| x@,
    ) == owners.handles()
}

/// Finds the owner of the table `handle` in `owners`, after bringing the
/// handle into standard form. A handle the map does not hold is an error,
/// never a default owner.
pub fn resolve_owner(owners: &TableHandleToOwner, handle: &str, version: i64) -> (r: Result<
    String,
    IndexError,
>)
    ensures
        match owners.spec_get(standardized(handle@)) {
            Some(m) => r == Ok::<String, IndexError>(m.owner_address),
            None => r matches Err(e) && owner_missing(e, *owners, handle@, version),
        },
{
    let standard = TableMetadataForToken::standardize_handle(handle);
    match owners.get(standard.as_str()) {
        Some(m) => Ok(m.owner_address.clone()),
        None => Err(
            IndexError::OwnerNotFound {
                version,
                handle: String::from_str(handle),
                standardized_handle: standard,
                known_handles: owners.known_handles(),
            },
        ),
    }
}

} // verus!
