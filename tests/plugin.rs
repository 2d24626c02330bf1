use prost::Message;
use prost_types::compiler::CodeGeneratorRequest;
use protoc_gen_prost_serde::plugin::{plan, prepare, Request};

fn encoded(parameter: Option<&str>) -> Vec<u8> {
    let request = CodeGeneratorRequest {
        parameter: parameter.map(|p| p.to_string()),
        ..Default::default()
    };
    request.encode_to_vec()
}

#[test]
fn empty_input_plans_with_empty_builder() {
    match prepare(&[]) {
        Ok(plan) => {
            let text = format!("{:?}", plan.builder);
            assert!(text.contains("extern_paths: []"), "{}", text);
            assert!(text.contains("retain_enum_prefix: false"), "{}", text);
            assert_eq!(plan.module_request_set.requests().count(), 0);
        }
        Err(e) => panic!("empty request failed: {}", e),
    }
}

#[test]
fn empty_request_without_files_plans_nothing() {
    match prepare(&encoded(None)) {
        Ok(plan) => assert_eq!(plan.module_request_set.requests().count(), 0),
        Err(e) => panic!("empty request failed: {}", e),
    }
}

#[test]
fn parameters_reach_the_builder() {
    let raw = encoded(Some("extern_path=.foo=crate::foo,retain_enum_prefix"));
    match prepare(&raw) {
        Ok(plan) => {
            let text = format!("{:?}", plan.builder);
            assert!(text.contains("extern_paths: [(\".foo\", \"crate::foo\")]"), "{}", text);
            assert!(text.contains("retain_enum_prefix: true"), "{}", text);
        }
        Err(e) => panic!("request failed: {}", e),
    }
}

#[test]
fn truncated_input_reports_decode_failure() {
    // field 1, length-delimited, with the length missing
    match prepare(&[0x0a]) {
        Ok(_) => panic!("truncated request decoded"),
        Err(e) => {
            assert!(!e.is_empty());
            assert!(e.starts_with("failed to decode Protobuf message: "), "{}", e);
        }
    }
}

#[test]
fn truncated_string_reports_decode_failure() {
    let mut raw = encoded(Some("retain_enum_prefix"));
    raw.truncate(raw.len() - 3);
    match prepare(&raw) {
        Ok(_) => panic!("truncated request decoded"),
        Err(e) => assert!(e.starts_with("failed to decode Protobuf message: "), "{}", e),
    }
}

#[test]
fn bad_parameter_is_reported() {
    match prepare(&encoded(Some("bogus_flag"))) {
        Ok(_) => panic!("bad parameter accepted"),
        Err(e) => assert_eq!(e, "invalid parameter: bogus_flag"),
    }
}

#[test]
fn plan_reports_bad_parameter() {
    let request = Request {
        file_to_generate: Vec::new(),
        parameter: "extern_path=.a".to_string(),
        proto_file: Vec::new(),
    };
    match plan(request, &[]) {
        Ok(_) => panic!("bad parameter accepted"),
        Err(e) => assert_eq!(e, "invalid parameter: extern_path=.a"),
    }
}

#[test]
fn plan_configures_builder() {
    let request = Request {
        file_to_generate: Vec::new(),
        parameter: "extern_path=.a=x,extern_path=.a=y".to_string(),
        proto_file: Vec::new(),
    };
    match plan(request, &[]) {
        Ok(plan) => {
            let text = format!("{:?}", plan.builder);
            assert!(
                text.contains("extern_paths: [(\".a\", \"x\"), (\".a\", \"y\")]"),
                "{}",
                text
            );
        }
        Err(e) => panic!("plan failed: {}", e),
    }
}

#[test]
fn prefix_and_file_name_of_package() {
    assert_eq!(protoc_gen_prost_serde::plugin::package_prefix("foo.bar"), ".foo.bar");
    assert_eq!(protoc_gen_prost_serde::plugin::serde_file_name("foo.bar"), "foo.bar.serde.rs");
}

#[test]
fn plan_registers_every_descriptor() {
    let file = prost_types::FileDescriptorProto {
        name: Some("a.proto".to_string()),
        package: Some("somepkg".to_string()),
        message_type: vec![prost_types::DescriptorProto {
            name: Some("Thing".to_string()),
            ..Default::default()
        }],
        ..Default::default()
    };
    let request = Request {
        file_to_generate: Vec::new(),
        parameter: String::new(),
        proto_file: vec![file],
    };
    match plan(request, &[]) {
        Ok(plan) => {
            let text = format!("{:?}", plan.builder);
            assert!(text.contains("somepkg"), "{}", text);
            assert!(text.contains("Thing"), "{}", text);
        }
        Err(e) => panic!("plan failed: {}", e),
    }
}

fn descriptor(package: Option<&str>, messages: &[&str]) -> prost_types::FileDescriptorProto {
    prost_types::FileDescriptorProto {
        name: Some("x.proto".to_string()),
        package: package.map(|p| p.to_string()),
        message_type: messages
            .iter()
            .map(|m| prost_types::DescriptorProto {
                name: Some(m.to_string()),
                ..Default::default()
            })
            .collect(),
        ..Default::default()
    }
}

fn plan_files(files: Vec<prost_types::FileDescriptorProto>) -> Result<String, String> {
    let request = Request {
        file_to_generate: Vec::new(),
        parameter: String::new(),
        proto_file: files,
    };
    plan(request, &[]).map(|p| format!("{:?}", p.builder))
}

#[test]
fn descriptor_without_package_is_refused() {
    assert_eq!(
        plan_files(vec![descriptor(None, &["A"])]),
        Err("file descriptor refused by the code builder".to_string())
    );
}

#[test]
fn descriptor_with_unknown_syntax_is_refused() {
    let mut file = descriptor(Some("p"), &["A"]);
    file.syntax = Some("editions".to_string());
    assert_eq!(
        plan_files(vec![file]),
        Err("file descriptor refused by the code builder".to_string())
    );
}

#[test]
fn descriptor_with_dotted_name_is_refused() {
    assert_eq!(
        plan_files(vec![descriptor(Some("p"), &["A.B"])]),
        Err("file descriptor refused by the code builder".to_string())
    );
    assert_eq!(
        plan_files(vec![descriptor(Some(".p"), &["A"])]),
        Err("file descriptor refused by the code builder".to_string())
    );
}

#[test]
fn type_registered_twice_is_refused() {
    assert_eq!(
        plan_files(vec![descriptor(Some("p"), &["A"]), descriptor(Some("p"), &["A"])]),
        Err("file descriptor refused by the code builder".to_string())
    );
    assert_eq!(
        plan_files(vec![descriptor(Some("p"), &["A", "A"])]),
        Err("file descriptor refused by the code builder".to_string())
    );
}

#[test]
fn same_name_in_other_package_registers() {
    let text = plan_files(vec![descriptor(Some("p"), &["A"]), descriptor(Some("q"), &["A"])])
        .expect("both files register");
    assert!(text.contains("\"p\""), "{}", text);
    assert!(text.contains("\"q\""), "{}", text);
}

#[test]
fn empty_parameter_field_plans() {
    match prepare(&[0x12, 0x00]) {
        Ok(plan) => assert_eq!(plan.module_request_set.requests().count(), 0),
        Err(e) => panic!("request failed: {}", e),
    }
}

#[test]
fn short_length_prefix_reports_decode_failure() {
    match prepare(&[0x0a, 0x05, 0x61]) {
        Ok(_) => panic!("truncated request decoded"),
        Err(e) => assert!(e.starts_with("failed to decode Protobuf message: "), "{}", e),
    }
}
