//! One plugin invocation: from the encoded request to the configured builder
//! and the set of modules to generate, or to the error to report instead.

use vstd::prelude::*;
use crate::builder::{
    builder_extern_paths, builder_retains_enum_prefix, builder_types, file_keys, register_descriptor,
    registers, TypeKey,
};
use crate::descriptors::{file_type_keys, keys_fresh, keys_view, Key};
use crate::params::{parameters_of, Parameters, ParametersModel};
use pbjson_build::Builder;
use prost::DecodeError;
use prost::Message;
use prost_types::compiler::CodeGeneratorRequest;
use prost_types::FileDescriptorProto;
use protoc_gen_prost::ModuleRequestSet;

verus! {

broadcast use vstd::string::group_string_axioms;

#[verifier::external_type_specification]
#[verifier::external_body]
pub struct ExDecodeError(DecodeError);

#[verifier::external_type_specification]
#[verifier::external_body]
pub struct ExModuleRequestSet(ModuleRequestSet);

/// The parts of a decoded request that the plugin reads.
pub struct Request {
    /// The proto files to generate code for.
    pub file_to_generate: Vec<String>,
    /// The parameter string; empty when the request has none.
    pub parameter: String,
    /// Every file descriptor of the request, dependencies included.
    pub proto_file: Vec<FileDescriptorProto>,
}

/// What is ready for generation once a request has been read.
pub struct Plan {
    /// The configured builder, with every descriptor of the request registered.
    pub builder: Builder,
    /// The modules to generate.
    pub module_request_set: ModuleRequestSet,
}

/// The text that reports a decoding failure starts so.
pub open spec fn is_decode_failure(s: Seq<char>) -> bool {
    "failed to decode Protobuf message: "@.is_prefix_of(s)
}

/// The text that reports a file descriptor that the builder would refuse.
pub open spec fn refused_descriptor_message() -> Seq<char> {
    "file descriptor refused by the code builder"@
}

/// Whether the files, registered in order with a builder that holds `types`,
/// all register from index `i` on.
pub open spec fn files_register(types: Set<TypeKey>, fs: Seq<FileDescriptorProto>, i: int) -> bool
    decreases fs.len() - i,
{
    if 0 <= i < fs.len() {
        registers(types, fs[i]) && files_register(
            types.union(file_keys(fs[i])->Some_0.to_set()),
            fs,
            i + 1,
        )
    } else {
        true
    }
}

/// The types a builder holding `types` holds once the files from index `i`
/// on are registered.
pub open spec fn types_after(types: Set<TypeKey>, fs: Seq<FileDescriptorProto>, i: int) -> Set<
    TypeKey,
>
    decreases fs.len() - i,
{
    if 0 <= i < fs.len() {
        types_after(types.union(file_keys(fs[i])->Some_0.to_set()), fs, i + 1)
    } else {
        types
    }
}

/// What `plan` owes for a request with parameters `m`, descriptors `fs` and
/// raw bytes `raw`.
pub open spec fn planned(m: ParametersModel, fs: Seq<FileDescriptorProto>, raw: Seq<u8>, r: Result<Plan, String>) -> bool {
    &&& !files_register(Set::empty(), fs, 0) ==> r is Err && r->Err_0@
        == refused_descriptor_message()
    &&& files_register(Set::empty(), fs, 0) ==> (r is Ok == raw_protos_decode(raw))
    &&& files_register(Set::empty(), fs, 0) && raw.len() == 0 ==> r is Ok
    &&& r is Ok ==> builder_extern_paths(r->Ok_0.builder) == m.extern_path
        && builder_retains_enum_prefix(r->Ok_0.builder) == m.retain_enum_prefix
        && builder_types(r->Ok_0.builder) == types_after(Set::empty(), fs, 0)
    &&& r is Err ==> is_decode_failure(r->Err_0@) || r->Err_0@ == refused_descriptor_message()
}

/// The text that reports a rejected parameter entry.
pub open spec fn invalid_parameter_message(t: Seq<char>) -> Seq<char> {
    "invalid parameter: "@ + t
}

/// Name for whether `CodeGeneratorRequest::decode` accepts the bytes.
pub uninterp spec fn request_decodes(raw: Seq<u8>) -> bool;

/// Name for the parameter string that `CodeGeneratorRequest::decode` finds in
/// the bytes (empty when the field is absent).
pub uninterp spec fn decoded_parameter(raw: Seq<u8>) -> Seq<char>;

/// Name for the file descriptors that `CodeGeneratorRequest::decode` finds in
/// the bytes, in order.
pub uninterp spec fn decoded_proto_files(raw: Seq<u8>) -> Seq<FileDescriptorProto>;

/// Name for whether `ModuleRequestSet::new` can decode the encoded file
/// descriptors of the bytes.
pub uninterp spec fn raw_protos_decode(raw: Seq<u8>) -> bool;

/// Relies on `Message::decode` for `CodeGeneratorRequest`, whose outcome
/// depends on the bytes alone: an empty input is an empty request, whose
/// parameter getter gives the empty string. Bytes that decode as a request
/// also decode as the message of field 15 alone that `ModuleRequestSet::new`
/// reads, since prost skips the other, well-formed fields.
#[verifier::external_body]
fn decode_request(raw: &[u8]) -> (r: Result<Request, DecodeError>)
    ensures
        r is Ok == request_decodes(raw@),
        r is Ok ==> r->Ok_0.parameter@ == decoded_parameter(raw@),
        r is Ok ==> r->Ok_0.proto_file@ == decoded_proto_files(raw@),
        r is Ok ==> raw_protos_decode(raw@),
        raw@.len() == 0 ==> r is Ok && r->Ok_0.file_to_generate@.len() == 0
            && r->Ok_0.parameter@.len() == 0 && r->Ok_0.proto_file@.len() == 0,
{
    match CodeGeneratorRequest::decode(raw) {
        Ok(request) => Ok(Request {
            parameter: request.parameter().to_string(),
            file_to_generate: request.file_to_generate,
            proto_file: request.proto_file,
        }),
        Err(e) => Err(e),
    }
}

/// Relies on the `Display` impl of `DecodeError`, which writes
/// "failed to decode Protobuf message: " before the details.
#[verifier::external_body]
fn decode_error_text(e: &DecodeError) -> (r: String)
    ensures
        is_decode_failure(r@),
{
    e.to_string()
}

/// Relies on `ModuleRequestSet::new`, which fails only where decoding the raw
/// request once more, for the encoded descriptors, fails; an empty input
/// decodes.
#[verifier::external_body]
fn module_request_set(
    file_to_generate: Vec<String>,
    proto_file: Vec<FileDescriptorProto>,
    raw_request: &[u8],
    default_package_filename: &str,
) -> (r: Result<ModuleRequestSet, DecodeError>)
    ensures
        r is Ok == raw_protos_decode(raw_request@),
        raw_request@.len() == 0 ==> r is Ok,
{
    ModuleRequestSet::new(file_to_generate, proto_file, raw_request, Some(default_package_filename))
}

/// Configures a builder from a decoded request, registers every descriptor of
/// the request with it, dependencies included, and sets up the modules to
/// generate. A parameter string that does not parse gives its error message;
/// a descriptor that the builder would refuse is reported instead of
/// registered; otherwise the plan comes back whenever the module set builds.
pub fn plan(request: Request, raw_request: &[u8]) -> (r: Result<Plan, String>)
    ensures
        match parameters_of(request.parameter@) {
            Err(t) => r is Err && r->Err_0@ == invalid_parameter_message(t),
            Ok(m) => planned(m, request.proto_file@, raw_request@, r),
        },
{
    let params = match Parameters::from_str(request.parameter.as_str()) {
        Ok(p) => p,
        Err(e) => {
            return Err(e.message());
        },
    };
    let mut builder = params.to_pbjson_builder();
    let ghost fs = request.proto_file@;
    let mut registered: Vec<Key> = Vec::new();
    assert(keys_view(registered@).to_set() =~= Set::<TypeKey>::empty());
    let mut i: usize = 0;
    while i < request.proto_file.len()
        invariant
            fs == request.proto_file@,
            i <= fs.len(),
            parameters_of(request.parameter@) == Ok::<ParametersModel, Seq<char>>(params@),
            builder_extern_paths(builder) == params@.extern_path,
            builder_retains_enum_prefix(builder) == params@.retain_enum_prefix,
            builder_types(builder) == keys_view(registered@).to_set(),
            files_register(Set::empty(), fs, 0) == files_register(builder_types(builder), fs, i as int),
            types_after(Set::empty(), fs, 0) == types_after(builder_types(builder), fs, i as int),
        decreases fs.len() - i,
    {
        let file = &request.proto_file[i];
        assert(*file == fs[i as int]);
        let keys = match file_type_keys(file) {
            Some(k) => k,
            None => {
                assert(!files_register(builder_types(builder), fs, i as int));
                return Err("file descriptor refused by the code builder".to_string());
            },
        };
        if !keys_fresh(&registered, &keys) {
            proof {
                let ks = keys_view(keys@);
                let types = builder_types(builder);
                if ks.no_duplicates() {
                    let k = choose|k: int|
                        0 <= k < keys@.len() && keys_view(registered@).contains(#[trigger] ks[k]);
                    assert(types.contains(ks[k]));
                }
                assert(!registers(types, fs[i as int]));
            }
            return Err("file descriptor refused by the code builder".to_string());
        }
        let ghost before = registered@;
        let ghost kv = keys_view(keys@);
        register_descriptor(&mut builder, file);
        let mut keys = keys;
        registered.append(&mut keys);
        proof {
            assert(keys_view(registered@) =~= keys_view(before) + kv);
            let all = keys_view(registered@);
            let old_keys = keys_view(before);
            assert forall|x: TypeKey| all.contains(x) <==> (old_keys.contains(x) || kv.contains(x)) by {
                if all.contains(x) {
                    let k = choose|k: int| 0 <= k < all.len() && all[k] == x;
                    if k < old_keys.len() {
                        assert(old_keys[k] == x);
                    } else {
                        assert(kv[k - old_keys.len()] == x);
                    }
                }
                if old_keys.contains(x) {
                    let k = choose|k: int| 0 <= k < old_keys.len() && old_keys[k] == x;
                    assert(all[k] == x);
                }
                if kv.contains(x) {
                    let k = choose|k: int| 0 <= k < kv.len() && kv[k] == x;
                    assert(all[old_keys.len() + k] == x);
                }
            }
            assert(all.to_set() =~= old_keys.to_set().union(kv.to_set()));
        }
        i = i + 1;
    }
    proof {
        reveal_strlit("file descriptor refused by the code builder");
        reveal_strlit("failed to decode Protobuf message: ");
    }
    match module_request_set(
        request.file_to_generate,
        request.proto_file,
        raw_request,
        params.default_package_filename(),
    ) {
        Ok(module_request_set) => Ok(Plan { builder, module_request_set }),
        Err(e) => Err(decode_error_text(&e)),
    }
}

/// The type prefix that selects the types of a proto package for generation.
pub fn package_prefix(package: &str) -> (r: String)
    ensures
        r@ == seq!['.'] + package@,
{
    proof {
        reveal_strlit(".");
    }
    let mut r = ".".to_string();
    r.append(package);
    r
}

/// The name of the file that holds the generated code of a package.
pub fn serde_file_name(package: &str) -> (r: String)
    ensures
        r@ == package@ + ".serde.rs"@,
{
    let mut r = package.to_string();
    r.append(".serde.rs");
    r
}

/// Reads an encoded request and plans its generation. Every failure comes back
/// as a non-empty message to report; an empty input is an empty request, which
/// plans with a builder that has nothing configured.
pub fn prepare(raw_request: &[u8]) -> (r: Result<Plan, String>)
    ensures
        r is Err ==> r->Err_0@.len() > 0,
        !request_decodes(raw_request@) ==> r is Err && is_decode_failure(r->Err_0@),
        request_decodes(raw_request@) ==> match parameters_of(decoded_parameter(raw_request@)) {
            Err(t) => r is Err && r->Err_0@ == invalid_parameter_message(t),
            Ok(m) => planned(m, decoded_proto_files(raw_request@), raw_request@, r),
        },
        request_decodes(raw_request@) && parameters_of(decoded_parameter(raw_request@)) is Ok
            && files_register(Set::empty(), decoded_proto_files(raw_request@), 0) ==> r is Ok,
        raw_request@.len() == 0 ==> r is Ok && builder_extern_paths(r->Ok_0.builder)
            == Seq::<(Seq<char>, Seq<char>)>::empty() && !builder_retains_enum_prefix(
            r->Ok_0.builder,
        ),
{
    proof {
        reveal_strlit("failed to decode Protobuf message: ");
        reveal_strlit("invalid parameter: ");
    }
    match decode_request(raw_request) {
        Ok(request) => {
            proof {
                if raw_request@.len() == 0 {
                    assert(request.parameter@ =~= Seq::<char>::empty());
                    crate::params::lemma_empty_string_gives_defaults();
                }
                match parameters_of(request.parameter@) {
                    Err(t) => {
                        assert(("invalid parameter: "@ + t).len() > 0);
                    },
                    Ok(m) => {
                        reveal_strlit("file descriptor refused by the code builder");
                    },
                }
            }
            plan(request, raw_request)
        },
        Err(e) => Err(decode_error_text(&e)),
    }
}

} // verus!
