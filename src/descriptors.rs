//! Which file descriptors the builder can take: the keys of the types that a
//! file registers, and the test that none is refused or registered twice.

use vstd::prelude::*;
use crate::builder::{
    enum_keys_from, file_keys, message_keys, messages_keys_from, prepend, usable_name, TypeKey,
};
use prost_types::{DescriptorProto, EnumDescriptorProto, FileDescriptorProto};

verus! {

broadcast use vstd::string::group_string_axioms, vstd::std_specs::vec::group_vec_axioms,
    vstd::seq::group_seq_axioms;

/// A type key as the library holds it.
pub type Key = (String, Vec<String>);

pub open spec fn names_view(v: Seq<String>) -> Seq<Seq<char>> {
    v.map_values(|s: String| s@)
}

pub open spec fn key_view(k: Key) -> TypeKey {
    (k.0@, names_view(k.1@))
}

pub open spec fn keys_view(ks: Seq<Key>) -> Seq<TypeKey> {
    ks.map_values(|k: Key| key_view(k))
}

fn child_path(outer: &Vec<String>, name: &String) -> (r: Vec<String>)
    ensures
        names_view(r@) == names_view(outer@).push(name@),
{
    let mut r: Vec<String> = Vec::new();
    let mut i: usize = 0;
    while i < outer.len()
        invariant
            i <= outer@.len(),
            names_view(r@) == names_view(outer@.subrange(0, i as int)),
        decreases outer@.len() - i,
    {
        r.push(outer[i].clone());
        proof {
            assert(names_view(outer@.subrange(0, i + 1)) =~= names_view(
                outer@.subrange(0, i as int),
            ).push(outer@[i as int]@));
        }
        i = i + 1;
        assert(names_view(r@) =~= names_view(outer@.subrange(0, i as int)));
    }
    r.push(name.clone());
    assert(outer@.subrange(0, outer@.len() as int) =~= outer@);
    assert(names_view(r@) =~= names_view(outer@).push(name@));
    r
}

fn has_dot(s: &String) -> (r: bool)
    ensures
        r == s@.contains('.'),
{
    let t = s.as_str();
    let n = t.unicode_len();
    let mut i: usize = 0;
    while i < n
        invariant
            n == s@.len(),
            t@ == s@,
            i <= n,
            forall|j: int| 0 <= j < i ==> s@[j] != '.',
        decreases n - i,
    {
        if t.get_char(i) == '.' {
            return true;
        }
        i = i + 1;
    }
    false
}

fn name_usable(n: &Option<String>) -> (r: bool)
    ensures
        r == usable_name(*n),
{
    match n {
        Some(t) => !has_dot(t),
        None => false,
    }
}

fn append_keys(out: &mut Vec<Key>, more: Vec<Key>)
    ensures
        keys_view(final(out)@) == keys_view(old(out)@) + keys_view(more@),
{
    let mut more = more;
    let ghost before = out@;
    let ghost added = more@;
    out.append(&mut more);
    assert(keys_view(out@) =~= keys_view(before) + keys_view(added));
}

fn enum_keys_exec(pkg: &String, outer: &Vec<String>, es: &Vec<EnumDescriptorProto>) -> (r: Option<
    Vec<Key>,
>)
    ensures
        match r {
            Some(v) => enum_keys_from(pkg@, names_view(outer@), es@, 0) == Some(keys_view(v@)),
            None => enum_keys_from(pkg@, names_view(outer@), es@, 0) is None,
        },
{
    let ghost ov = names_view(outer@);
    let mut acc: Vec<Key> = Vec::new();
    let mut i: usize = 0;
    while i < es.len()
        invariant
            i <= es@.len(),
            ov == names_view(outer@),
            enum_keys_from(pkg@, ov, es@, 0) == prepend(
                keys_view(acc@),
                enum_keys_from(pkg@, ov, es@, i as int),
            ),
        decreases es@.len() - i,
    {
        let e = &es[i];
        if !name_usable(&e.name) {
            return None;
        }
        let name = match &e.name {
            Some(n) => n,
            None => {
                return None;
            },
        };
        let key: Key = (pkg.clone(), child_path(outer, name));
        assert(enum_keys_from(pkg@, ov, es@, i as int) == prepend(
            seq![key_view(key)],
            enum_keys_from(pkg@, ov, es@, i + 1),
        ));
        let ghost before = acc@;
        acc.push(key);
        proof {
            assert(keys_view(acc@) =~= keys_view(before) + seq![key_view(key)]);
            match enum_keys_from(pkg@, ov, es@, i + 1) {
                Some(x) => {
                    assert(keys_view(before) + (seq![key_view(key)] + x) =~= keys_view(acc@) + x);
                },
                None => {},
            }
        }
        i = i + 1;
    }
    assert(keys_view(acc@) + Seq::<TypeKey>::empty() =~= keys_view(acc@));
    Some(acc)
}

fn message_keys_exec(pkg: &String, outer: &Vec<String>, m: &DescriptorProto) -> (r: Option<
    Vec<Key>,
>)
    ensures
        match r {
            Some(v) => message_keys(pkg@, names_view(outer@), *m) == Some(keys_view(v@)),
            None => message_keys(pkg@, names_view(outer@), *m) is None,
        },
    decreases *m,
{
    if !name_usable(&m.name) {
        return None;
    }
    let here = match &m.name {
        Some(n) => child_path(outer, n),
        None => {
            return None;
        },
    };
    let ghost hv = names_view(here@);
    let mut acc = match enum_keys_exec(pkg, &here, &m.enum_type) {
        Some(v) => v,
        None => {
            return None;
        },
    };
    let ghost enums = keys_view(acc@);
    let mut nested: Vec<Key> = Vec::new();
    let mut i: usize = 0;
    while i < m.nested_type.len()
        invariant
            i <= m.nested_type@.len(),
            hv == names_view(here@),
            hv == names_view(outer@).push(m.name->Some_0@),
            usable_name(m.name),
            enum_keys_from(pkg@, hv, m.enum_type@, 0) == Some(enums),
            messages_keys_from(pkg@, hv, m.nested_type@, 0) == prepend(
                keys_view(nested@),
                messages_keys_from(pkg@, hv, m.nested_type@, i as int),
            ),
        decreases m.nested_type@.len() - i,
    {
        let child = &m.nested_type[i];
        let ks = match message_keys_exec(pkg, &here, child) {
            Some(v) => v,
            None => {
                return None;
            },
        };
        let ghost before = nested@;
        let ghost kv = keys_view(ks@);
        append_keys(&mut nested, ks);
        proof {
            match messages_keys_from(pkg@, hv, m.nested_type@, i + 1) {
                Some(x) => {
                    assert(keys_view(before) + (kv + x) =~= keys_view(nested@) + x);
                },
                None => {},
            }
        }
        i = i + 1;
    }
    assert(keys_view(nested@) + Seq::<TypeKey>::empty() =~= keys_view(nested@));
    let ghost nv = keys_view(nested@);
    append_keys(&mut acc, nested);
    let own: Key = (pkg.clone(), here);
    acc.push(own);
    assert(keys_view(acc@) =~= enums + nv + seq![(pkg@, hv)]);
    Some(acc)
}

fn messages_keys_exec(pkg: &String, ms: &Vec<DescriptorProto>) -> (r: Option<Vec<Key>>)
    ensures
        match r {
            Some(v) => messages_keys_from(pkg@, seq![], ms@, 0) == Some(keys_view(v@)),
            None => messages_keys_from(pkg@, seq![], ms@, 0) is None,
        },
{
    let outer: Vec<String> = Vec::new();
    assert(names_view(outer@) =~= Seq::<Seq<char>>::empty());
    let mut acc: Vec<Key> = Vec::new();
    let mut i: usize = 0;
    while i < ms.len()
        invariant
            i <= ms@.len(),
            names_view(outer@) == Seq::<Seq<char>>::empty(),
            messages_keys_from(pkg@, seq![], ms@, 0) == prepend(
                keys_view(acc@),
                messages_keys_from(pkg@, seq![], ms@, i as int),
            ),
        decreases ms@.len() - i,
    {
        let ks = match message_keys_exec(pkg, &outer, &ms[i]) {
            Some(v) => v,
            None => {
                return None;
            },
        };
        let ghost before = acc@;
        let ghost kv = keys_view(ks@);
        append_keys(&mut acc, ks);
        proof {
            match messages_keys_from(pkg@, seq![], ms@, i + 1) {
                Some(x) => {
                    assert(keys_view(before) + (kv + x) =~= keys_view(acc@) + x);
                },
                None => {},
            }
        }
        i = i + 1;
    }
    assert(keys_view(acc@) + Seq::<TypeKey>::empty() =~= keys_view(acc@));
    Some(acc)
}

fn same_text(a: &String, b: &str) -> (r: bool)
    ensures
        r == (a@ == b@),
{
    *a == b.to_string()
}

/// The keys of the types that registering `f` adds, in the builder's order,
/// or `None` where the builder refuses the file's syntax, package or a name.
pub fn file_type_keys(f: &FileDescriptorProto) -> (r: Option<Vec<Key>>)
    ensures
        match r {
            Some(v) => file_keys(*f) == Some(keys_view(v@)),
            None => file_keys(*f) is None,
        },
{
    let syntax_known = match &f.syntax {
        Some(s) => same_text(s, "proto2") || same_text(s, "proto3"),
        None => true,
    };
    if !syntax_known {
        return None;
    }
    let pkg = match &f.package {
        Some(p) => p,
        None => {
            return None;
        },
    };
    let t = pkg.as_str();
    if t.unicode_len() > 0 && t.get_char(0) == '.' {
        return None;
    }
    let outer: Vec<String> = Vec::new();
    assert(names_view(outer@) =~= Seq::<Seq<char>>::empty());
    let mut acc = match messages_keys_exec(pkg, &f.message_type) {
        Some(v) => v,
        None => {
            return None;
        },
    };
    let enums = match enum_keys_exec(pkg, &outer, &f.enum_type) {
        Some(v) => v,
        None => {
            return None;
        },
    };
    append_keys(&mut acc, enums);
    Some(acc)
}

fn names_equal(a: &Vec<String>, b: &Vec<String>) -> (r: bool)
    ensures
        r == (names_view(a@) == names_view(b@)),
{
    if a.len() != b.len() {
        assert(names_view(a@).len() != names_view(b@).len());
        return false;
    }
    let mut i: usize = 0;
    while i < a.len()
        invariant
            a@.len() == b@.len(),
            i <= a@.len(),
            forall|j: int| 0 <= j < i ==> a@[j]@ == b@[j]@,
        decreases a@.len() - i,
    {
        if a[i] != b[i] {
            assert(names_view(a@)[i as int] != names_view(b@)[i as int]);
            return false;
        }
        i = i + 1;
    }
    assert(names_view(a@) =~= names_view(b@));
    true
}

fn key_equal(a: &Key, b: &Key) -> (r: bool)
    ensures
        r == (key_view(*a) == key_view(*b)),
{
    a.0 == b.0 && names_equal(&a.1, &b.1)
}

/// Whether the keys of a file can join the keys registered so far: no key
/// of the file is registered already, and none comes twice.
pub fn keys_fresh(registered: &Vec<Key>, new: &Vec<Key>) -> (r: bool)
    ensures
        r == (keys_view(new@).no_duplicates() && forall|i: int|
            0 <= i < new@.len() ==> !keys_view(registered@).contains(#[trigger] keys_view(new@)[i])),
{
    let ghost rv = keys_view(registered@);
    let ghost nv = keys_view(new@);
    let mut i: usize = 0;
    while i < new.len()
        invariant
            i <= new@.len(),
            rv == keys_view(registered@),
            nv == keys_view(new@),
            forall|k: int| 0 <= k < i ==> !rv.contains(#[trigger] nv[k]),
            forall|k: int, l: int| 0 <= k < i && 0 <= l < i && k != l ==> nv[k] != nv[l],
        decreases new@.len() - i,
    {
        let mut j: usize = 0;
        while j < registered.len()
            invariant
                i < new@.len(),
                j <= registered@.len(),
                rv == keys_view(registered@),
                nv == keys_view(new@),
                forall|l: int| 0 <= l < j ==> rv[l] != nv[i as int],
            decreases registered@.len() - j,
        {
            if key_equal(&new[i], &registered[j]) {
                assert(rv[j as int] == nv[i as int]);
                assert(rv.contains(nv[i as int]));
                return false;
            }
            j = j + 1;
        }
        let mut j: usize = 0;
        while j < i
            invariant
                i < new@.len(),
                j <= i,
                nv == keys_view(new@),
                forall|l: int| 0 <= l < j ==> nv[l] != nv[i as int],
            decreases i - j,
        {
            if key_equal(&new[i], &new[j]) {
                assert(nv[j as int] == nv[i as int]);
                return false;
            }
            j = j + 1;
        }
        assert(!rv.contains(nv[i as int]));
        i = i + 1;
    }
    true
}

} // verus!
