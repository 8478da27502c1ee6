use glbind::error::BindError;
use glbind::error::ShaderStage;
use glbind::error::compile_outcome;
use glbind::error::link_outcome;

#[test]
fn successful_compile_status_is_ok() {
    let r = compile_outcome(true, ShaderStage::Vertex, b"demo".to_vec(), String::new());
    assert!(r.is_ok());
}

#[test]
fn failed_vertex_compile_carries_stage_name_and_log() {
    let r = compile_outcome(
        false,
        ShaderStage::Vertex,
        b"demo".to_vec(),
        String::from("0:1: syntax error, expected ';'"),
    );
    match r {
        Err(BindError::ShaderCompile { stage, program_name, log }) => {
            assert_eq!(stage, ShaderStage::Vertex);
            assert_eq!(program_name, b"demo".to_vec());
            assert!(!log.is_empty());
            assert_eq!(log, "0:1: syntax error, expected ';'");
        }
        _ => panic!("expected a compile error"),
    }
}

#[test]
fn failed_fragment_compile_names_the_fragment_stage() {
    let r = compile_outcome(
        false,
        ShaderStage::Fragment,
        b"demo".to_vec(),
        String::from("0:2: undeclared identifier"),
    );
    match r {
        Err(BindError::ShaderCompile { stage, .. }) => {
            assert_eq!(stage, ShaderStage::Fragment);
        }
        _ => panic!("expected a compile error"),
    }
}

#[test]
fn successful_link_status_is_ok() {
    let r = link_outcome(true, b"demo".to_vec(), String::new());
    assert!(r.is_ok());
}

#[test]
fn failed_link_carries_name_and_log() {
    let r = link_outcome(false, b"demo".to_vec(), String::from("varyings do not match"));
    match r {
        Err(BindError::Link { program_name, log }) => {
            assert_eq!(program_name, b"demo".to_vec());
            assert!(!log.is_empty());
            assert_eq!(log, "varyings do not match");
        }
        _ => panic!("expected a link error"),
    }
}

#[test]
fn stage_labels() {
    assert_eq!(ShaderStage::Vertex.as_ref(), "vertex shader");
    assert_eq!(ShaderStage::Fragment.as_ref(), "fragment shader");
}
