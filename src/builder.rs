//! The code builder of `pbjson_build`, as the library configures it.

use vstd::prelude::*;
use pbjson_build::Builder;
use prost_types::descriptor_proto::{ExtensionRange, ReservedRange};
use prost_types::enum_descriptor_proto::EnumReservedRange;
use prost_types::{
    DescriptorProto, EnumDescriptorProto, EnumOptions, EnumValueDescriptorProto,
    FieldDescriptorProto, FileDescriptorProto, FileOptions, MessageOptions, OneofDescriptorProto,
    ServiceDescriptorProto, SourceCodeInfo,
};

verus! {

broadcast use vstd::std_specs::vec::group_vec_axioms, vstd::seq::group_seq_axioms;

#[verifier::external_type_specification]
#[verifier::external_body]
pub struct ExBuilder(Builder);

// The three descriptor types below are read field by field; their fields are
// public in `prost_types`. The others are carried through unread.
#[verifier::external_type_specification]
pub struct ExFileDescriptorProto(FileDescriptorProto);

#[verifier::external_type_specification]
pub struct ExDescriptorProto(DescriptorProto);

#[verifier::external_type_specification]
pub struct ExEnumDescriptorProto(EnumDescriptorProto);

#[verifier::external_type_specification]
#[verifier::external_body]
pub struct ExFieldDescriptorProto(FieldDescriptorProto);

#[verifier::external_type_specification]
#[verifier::external_body]
pub struct ExExtensionRange(ExtensionRange);

#[verifier::external_type_specification]
#[verifier::external_body]
pub struct ExReservedRange(ReservedRange);

#[verifier::external_type_specification]
#[verifier::external_body]
pub struct ExOneofDescriptorProto(OneofDescriptorProto);

#[verifier::external_type_specification]
#[verifier::external_body]
pub struct ExMessageOptions(MessageOptions);

#[verifier::external_type_specification]
#[verifier::external_body]
pub struct ExEnumValueDescriptorProto(EnumValueDescriptorProto);

#[verifier::external_type_specification]
#[verifier::external_body]
pub struct ExEnumOptions(EnumOptions);

#[verifier::external_type_specification]
#[verifier::external_body]
pub struct ExEnumReservedRange(EnumReservedRange);

#[verifier::external_type_specification]
#[verifier::external_body]
pub struct ExServiceDescriptorProto(ServiceDescriptorProto);

#[verifier::external_type_specification]
#[verifier::external_body]
pub struct ExFileOptions(FileOptions);

#[verifier::external_type_specification]
#[verifier::external_body]
pub struct ExSourceCodeInfo(SourceCodeInfo);

/// The extern paths registered with a builder, in the order of registration.
pub uninterp spec fn builder_extern_paths(b: Builder) -> Seq<(Seq<char>, Seq<char>)>;

/// Whether a builder keeps enum prefixes on variant names.
pub uninterp spec fn builder_retains_enum_prefix(b: Builder) -> bool;

/// The types registered with a builder, by package and chain of names.
pub uninterp spec fn builder_types(b: Builder) -> Set<(Seq<char>, Seq<Seq<char>>)>;

/// A type as the builder keys it: its package, and its chain of names from
/// the outermost message.
pub type TypeKey = (Seq<char>, Seq<Seq<char>>);

/// A type name that the builder takes: present, and without a `.`.
pub open spec fn usable_name(n: Option<String>) -> bool {
    n is Some && !n->Some_0@.contains('.')
}

/// `b` after the keys `a`, unless `b` is `None`.
pub open spec fn prepend(a: Seq<TypeKey>, b: Option<Seq<TypeKey>>) -> Option<Seq<TypeKey>> {
    match b {
        Some(x) => Some(a + x),
        None => None,
    }
}

/// The keys of the enums from index `i` on, declared under `outer`, or
/// `None` when one of their names is not usable.
pub open spec fn enum_keys_from(
    pkg: Seq<char>,
    outer: Seq<Seq<char>>,
    es: Seq<EnumDescriptorProto>,
    i: int,
) -> Option<Seq<TypeKey>>
    decreases es.len() - i,
{
    if 0 <= i < es.len() {
        if usable_name(es[i].name) {
            prepend(seq![(pkg, outer.push(es[i].name->Some_0@))], enum_keys_from(pkg, outer, es, i + 1))
        } else {
            None
        }
    } else {
        Some(Seq::empty())
    }
}

/// The keys that registering a message declared under `outer` adds, in the
/// builder's order: its enums, its nested messages, then itself.
pub open spec fn message_keys(pkg: Seq<char>, outer: Seq<Seq<char>>, m: DescriptorProto) -> Option<
    Seq<TypeKey>,
>
    decreases m, 0int,
{
    if usable_name(m.name) {
        let here = outer.push(m.name->Some_0@);
        match (enum_keys_from(pkg, here, m.enum_type@, 0), messages_keys_from(pkg, here, m.nested_type@, 0)) {
            (Some(a), Some(b)) => Some(a + b + seq![(pkg, here)]),
            _ => None,
        }
    } else {
        None
    }
}

/// The keys of the messages from index `i` on, declared under `outer`.
pub open spec fn messages_keys_from(
    pkg: Seq<char>,
    outer: Seq<Seq<char>>,
    ms: Seq<DescriptorProto>,
    i: int,
) -> Option<Seq<TypeKey>>
    decreases ms, ms.len() - i,
{
    if 0 <= i < ms.len() {
        match message_keys(pkg, outer, ms[i]) {
            Some(a) => prepend(a, messages_keys_from(pkg, outer, ms, i + 1)),
            None => None,
        }
    } else {
        Some(Seq::empty())
    }
}

/// A syntax that the builder knows: absent, `proto2` or `proto3`.
pub open spec fn known_syntax(s: Option<String>) -> bool {
    s is None || s->Some_0@ == "proto2"@ || s->Some_0@ == "proto3"@
}

/// The keys that registering a file adds, or `None` where the file's syntax,
/// package or a type name is refused.
pub open spec fn file_keys(f: FileDescriptorProto) -> Option<Seq<TypeKey>> {
    if known_syntax(f.syntax) && f.package is Some && !(f.package->Some_0@.len() > 0
        && f.package->Some_0@[0] == '.') {
        let pkg = f.package->Some_0@;
        match (
            messages_keys_from(pkg, seq![], f.message_type@, 0),
            enum_keys_from(pkg, seq![], f.enum_type@, 0),
        ) {
            (Some(a), Some(b)) => Some(a + b),
            _ => None,
        }
    } else {
        None
    }
}

/// Whether a file registers with a builder that holds `types`: every name
/// is taken, and no type is registered twice.
pub open spec fn registers(types: Set<TypeKey>, f: FileDescriptorProto) -> bool {
    match file_keys(f) {
        Some(ks) => ks.no_duplicates() && forall|i: int|
            0 <= i < ks.len() ==> !types.contains(#[trigger] ks[i]),
        None => false,
    }
}

/// Relies on `Builder::new`: a default builder, with no extern path and
/// enum prefixes stripped.
#[verifier::external_body]
pub(crate) fn new_builder() -> (r: Builder)
    ensures
        builder_extern_paths(r) == Seq::<(Seq<char>, Seq<char>)>::empty(),
        !builder_retains_enum_prefix(r),
        builder_types(r) == Set::<TypeKey>::empty(),
{
    Builder::new()
}

/// Relies on `Builder::extern_path`: it appends the pair to the builder's
/// extern paths and changes nothing else that the library reads.
#[verifier::external_body]
pub(crate) fn add_extern_path(b: &mut Builder, proto_path: &str, rust_path: &str)
    ensures
        builder_extern_paths(*final(b)) == builder_extern_paths(*old(b)).push(
            (proto_path@, rust_path@),
        ),
        builder_retains_enum_prefix(*final(b)) == builder_retains_enum_prefix(*old(b)),
        builder_types(*final(b)) == builder_types(*old(b)),
{
    b.extern_path(proto_path, rust_path);
}

/// Relies on `Builder::retain_enum_prefix`: it sets the flag and leaves the
/// extern paths alone.
#[verifier::external_body]
pub(crate) fn keep_enum_prefix(b: &mut Builder)
    ensures
        builder_extern_paths(*final(b)) == builder_extern_paths(*old(b)),
        builder_retains_enum_prefix(*final(b)),
        builder_types(*final(b)) == builder_types(*old(b)),
{
    b.retain_enum_prefix();
}

/// Relies on `Builder::register_file_descriptor`: it adds every message and
/// enum of the file, nested ones included, to the builder's descriptor set,
/// and leaves its extern paths and its flag alone. It panics on an unknown
/// syntax, a missing package or one that starts with `.`, a missing type name
/// or one with a `.`, and a type registered twice, which `requires` leaves
/// out.
#[verifier::external_body]
pub(crate) fn register_descriptor(b: &mut Builder, file: &FileDescriptorProto)
    requires
        registers(builder_types(*old(b)), *file),
    ensures
        builder_types(*final(b)) == builder_types(*old(b)).union(file_keys(*file)->Some_0.to_set()),
        builder_extern_paths(*final(b)) == builder_extern_paths(*old(b)),
        builder_retains_enum_prefix(*final(b)) == builder_retains_enum_prefix(*old(b)),
{
    b.register_file_descriptor(file.clone());
}

} // verus!
