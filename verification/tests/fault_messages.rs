use shaderquad::fault::{Fault, ShaderStage};

#[test]
fn fragment_compile_fault_names_the_fragment_stage() {
    let fault = Fault::ShaderCompile {
        stage: ShaderStage::Fragment,
        message: String::from("0:3(1): error: syntax error, unexpected '}'"),
    };
    let diag = fault.describe();
    assert_eq!(
        diag,
        "compilation error in fragment shader: 0:3(1): error: syntax error, unexpected '}'"
    );
    assert!(diag.contains("fragment"));
}

#[test]
fn vertex_compile_fault_names_the_vertex_stage() {
    let fault = Fault::ShaderCompile {
        stage: ShaderStage::Vertex,
        message: String::from("undeclared identifier"),
    };
    assert_eq!(
        fault.describe(),
        "compilation error in vertex shader: undeclared identifier"
    );
}

#[test]
fn stage_names() {
    assert_eq!(ShaderStage::Vertex.name(), "vertex");
    assert_eq!(ShaderStage::Fragment.name(), "fragment");
}

#[test]
fn each_fault_kind_has_its_own_diagnostic() {
    let surface = Fault::SurfaceCreation { message: String::from("no display") };
    assert_eq!(surface.describe(), "surface creation failed: no display");

    let buffer = Fault::BufferAllocation { message: String::from("out of memory") };
    assert_eq!(buffer.describe(), "vertex buffer allocation failed: out of memory");

    let link = Fault::ShaderLink { message: String::from("unresolved varying") };
    assert_eq!(link.describe(), "linking error: unresolved varying");

    let other = Fault::ShaderOther { description: String::from("BinaryHeaderError") };
    assert_eq!(other.describe(), "program creation error: BinaryHeaderError");

    let present = Fault::Present { message: String::from("context lost") };
    assert_eq!(present.describe(), "frame presentation failed: context lost");
}
