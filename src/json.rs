use crate::util::{parse_u64, parsed_u64};
use vstd::prelude::*;

verus! {

/// A dynamically shaped payload as it arrives on the wire.
///
/// Objects keep their members in order; a lookup sees the first member with
/// the requested name.
#[derive(Debug, PartialEq)]
pub enum Json {
    Null,
    Bool(bool),
    Number(String),
    Str(String),
    Array(Vec<Json>),
    Object(Vec<(String, Json)>),
}

/// Member `k` of the members `ms`: the first one with that name.
pub open spec fn member(ms: Seq<(String, Json)>, k: Seq<char>) -> Option<Json>
    decreases ms.len(),
{
    if ms.len() == 0 {
        None
    } else if ms[0].0@ == k {
        Some(ms[0].1)
    } else {
        member(ms.drop_first(), k)
    }
}

/// Field `k` of `j` when `j` is an object, or its element at index `k`,
/// written in decimal, when `j` is an array.
pub open spec fn field(j: Json, k: Seq<char>) -> Option<Json> {
    match j {
        Json::Object(ms) => member(ms@, k),
        Json::Array(items) => match parsed_u64(k) {
            Some(n) => if n < items@.len() {
                Some(items@[n as int])
            } else {
                None
            },
            None => None,
        },
        _ => None,
    }
}

/// The value reached from `j` by following the field names of `path`.
pub open spec fn at_path(j: Json, path: Seq<Seq<char>>) -> Option<Json>
    decreases path.len(),
{
    if path.len() == 0 {
        Some(j)
    } else {
        match field(j, path[0]) {
            Some(c) => at_path(c, path.drop_first()),
            None => None,
        }
    }
}

/// The names of a path as character sequences.
pub open spec fn path_view(path: Seq<&str>) -> Seq<Seq<char>> {
    path.map_values(|s: &str| s@)
}

/// A path written with dots between its names (`royalty.payee_address`).
pub open spec fn dotted(path: Seq<Seq<char>>) -> Seq<char>
    decreases path.len(),
{
    if path.len() == 0 {
        Seq::empty()
    } else if path.len() == 1 {
        path[0]
    } else {
        dotted(path.drop_last()) + "."@ + path.last()
    }
}

impl Json {
    /// Field `key` of this object, or the element at index `key` of this array.
    pub fn get_field<'a>(&'a self, key: &str) -> (r: Option<&'a Json>)
        ensures
            match r {
                Some(v) => field(*self, key@) == Some(*v),
                None => field(*self, key@) is None,
            },
    {
        match self {
            Json::Object(ms) => {
                let k = String::from_str(key);
                let mut i: usize = 0;
                proof {
                    assert(ms@.skip(0) =~= ms@);
                }
                while i < ms.len()
                    invariant
                        i <= ms.len(),
                        k@ == key@,
                        field(*self, key@) == member(ms@, key@),
                        member(ms@, key@) == member(ms@.skip(i as int), key@),
                    decreases ms.len() - i,
                {
                    proof {
                        assert(ms@.skip(i as int).drop_first() =~= ms@.skip(i + 1));
                        assert(ms@.skip(i as int)[0] == ms@[i as int]);
                    }
                    if ms[i].0 == k {
                        proof {
                            assert(member(ms@.skip(i as int), key@) == Some(ms@[i as int].1));
                        }
                        return Some(&ms[i].1);
                    }
                    i = i + 1;
                }
                None
            },
            Json::Array(items) => match parse_u64(key) {
                Some(n) => if n < items.len() as u64 {
                    Some(&items[n as usize])
                } else {
                    None
                },
                None => None,
            },
            _ => None,
        }
    }

    /// The value reached by following the names of `path`.
    pub fn get_path<'a>(&'a self, path: &Vec<&str>) -> (r: Option<&'a Json>)
        ensures
            match r {
                Some(v) => at_path(*self, path_view(path@)) == Some(*v),
                None => at_path(*self, path_view(path@)) is None,
            },
    {
        let mut cur: &Json = self;
        let mut i: usize = 0;
        proof {
            assert(path_view(path@).skip(0) =~= path_view(path@));
        }
        while i < path.len()
            invariant
                i <= path.len(),
                at_path(*self, path_view(path@)) == at_path(*cur, path_view(path@).skip(i as int)),
            decreases path.len() - i,
        {
            proof {
                assert(path_view(path@).skip(i as int).drop_first() =~= path_view(path@).skip(i + 1));
                assert(path_view(path@).skip(i as int)[0] == path@[i as int]@);
            }
            match cur.get_field(path[i]) {
                Some(c) => {
                    cur = c;
                },
                None => {
                    return None;
                },
            }
            i = i + 1;
        }
        proof {
            assert(path_view(path@).skip(i as int) =~= Seq::<Seq<char>>::empty());
        }
        Some(cur)
    }
}

impl Json {
    /// Takes field `key`, or the element at index `key`, out of this payload.
    pub fn into_field(self, key: &str) -> (r: Option<Json>)
        ensures
            r == field(self, key@),
    {
        match self {
            Json::Object(ms) => {
                let ghost orig = ms@;
                let mut ms = ms;
                let k = String::from_str(key);
                let mut i: usize = 0;
                proof {
                    assert(ms@.skip(0) =~= ms@);
                }
                while i < ms.len()
                    invariant
                        i <= ms.len(),
                        k@ == key@,
                        ms@ == orig,
                        field(self, key@) == member(orig, key@),
                        member(orig, key@) == member(orig.skip(i as int), key@),
                    decreases ms.len() - i,
                {
                    proof {
                        assert(orig.skip(i as int).drop_first() =~= orig.skip(i + 1));
                        assert(orig.skip(i as int)[0] == orig[i as int]);
                    }
                    if ms[i].0 == k {
                        proof {
                            assert(member(orig.skip(i as int), key@) == Some(orig[i as int].1));
                        }
                        let (_, v) = ms.remove(i);
                        return Some(v);
                    }
                    i = i + 1;
                }
                None
            },
            Json::Array(items) => match parse_u64(key) {
                Some(n) => if n < items.len() as u64 {
                    let mut items = items;
                    Some(items.remove(n as usize))
                } else {
                    None
                },
                None => None,
            },
            _ => None,
        }
    }

    /// Takes the value at `path` out of this payload.
    pub fn into_path(self, path: &Vec<&str>) -> (r: Option<Json>)
        ensures
            r == at_path(self, path_view(path@)),
    {
        let ghost orig = self;
        let mut cur: Json = self;
        let mut i: usize = 0;
        proof {
            assert(path_view(path@).skip(0) =~= path_view(path@));
        }
        while i < path.len()
            invariant
                i <= path.len(),
                orig == self,
                at_path(orig, path_view(path@)) == at_path(cur, path_view(path@).skip(i as int)),
            decreases path.len() - i,
        {
            proof {
                assert(path_view(path@).skip(i as int).drop_first() =~= path_view(path@).skip(i + 1));
                assert(path_view(path@).skip(i as int)[0] == path@[i as int]@);
            }
            let ghost before = cur;
            match cur.into_field(path[i]) {
                Some(c) => {
                    cur = c;
                },
                None => {
                    proof {
                        assert(at_path(before, path_view(path@).skip(i as int)) is None);
                    }
                    return None;
                },
            }
            i = i + 1;
        }
        proof {
            assert(path_view(path@).skip(i as int) =~= Seq::<Seq<char>>::empty());
        }
        Some(cur)
    }
}

/// Writes `path` with dots between its names.
pub fn dotted_path(path: &Vec<&str>) -> (r: String)
    ensures
        r@ == dotted(path_view(path@)),
{
    let mut r = String::new();
    let mut i: usize = 0;
    while i < path.len()
        invariant
            i <= path.len(),
            r@ == dotted(path_view(path@).subrange(0, i as int)),
        decreases path.len() - i,
    {
        proof {
            let p = path_view(path@).subrange(0, i + 1);
            assert(p.drop_last() =~= path_view(path@).subrange(0, i as int));
            assert(path_view(path@).subrange(0, 0) =~= Seq::<Seq<char>>::empty());
        }
        if i > 0 {
            r.append(".");
        }
        r.append(path[i]);
        i = i + 1;
    }
    proof {
        assert(path_view(path@).subrange(0, i as int) =~= path_view(path@));
    }
    r
}

} // verus!
