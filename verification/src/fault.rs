use vstd::prelude::*;
use vstd::string::StringExecFns;

verus! {

/// The shader stage a compilation fault came from.
#[derive(Clone, Copy, PartialEq, Eq, Structural, Debug)]
pub enum ShaderStage {
    Vertex,
    Fragment,
}

/// Every fault this program can hit. All of them are fatal: the process
/// prints the fault's description and aborts, with no retry and no
/// degraded mode.
#[derive(Debug)]
pub enum Fault {
    /// The window or GL surface could not be created.
    SurfaceCreation { message: String },
    /// The quad's GPU vertex buffer could not be allocated.
    BufferAllocation { message: String },
    /// One shader stage failed to compile.
    ShaderCompile { stage: ShaderStage, message: String },
    /// The shader pair failed to link.
    ShaderLink { message: String },
    /// Any other program-creation fault.
    ShaderOther { description: String },
    /// Presenting a finished frame failed.
    Present { message: String },
}

/// The stage's name as it appears in diagnostics.
pub open spec fn stage_name_spec(s: ShaderStage) -> Seq<char> {
    match s {
        ShaderStage::Vertex => "vertex"@,
        ShaderStage::Fragment => "fragment"@,
    }
}

/// The diagnostic a fault aborts with: its kind, the failing shader
/// stage when there is one, and the text the platform reported.
pub open spec fn describe_spec(f: Fault) -> Seq<char> {
    match f {
        Fault::SurfaceCreation { message } => "surface creation failed: "@ + message@,
        Fault::BufferAllocation { message } => "vertex buffer allocation failed: "@ + message@,
        Fault::ShaderCompile { stage, message } =>
            "compilation error in "@ + stage_name_spec(stage) + " shader: "@ + message@,
        Fault::ShaderLink { message } => "linking error: "@ + message@,
        Fault::ShaderOther { description } => "program creation error: "@ + description@,
        Fault::Present { message } => "frame presentation failed: "@ + message@,
    }
}

impl ShaderStage {
    /// The stage's name as used in diagnostics.
    pub fn name(&self) -> (r: &'static str)
        ensures
            r@ == stage_name_spec(*self),
    {
        match self {
            ShaderStage::Vertex => "vertex",
            ShaderStage::Fragment => "fragment",
        }
    }
}

impl Fault {
    /// Renders the diagnostic the process aborts with.
    pub fn describe(&self) -> (r: String)
        ensures
            r@ == describe_spec(*self),
    {
        match self {
            Fault::SurfaceCreation { message } =>
                "surface creation failed: ".to_owned().concat(message.as_str()),
            Fault::BufferAllocation { message } =>
                "vertex buffer allocation failed: ".to_owned().concat(message.as_str()),
            Fault::ShaderCompile { stage, message } =>
                "compilation error in ".to_owned()
                    .concat(stage.name())
                    .concat(" shader: ")
                    .concat(message.as_str()),
            Fault::ShaderLink { message } =>
                "linking error: ".to_owned().concat(message.as_str()),
            Fault::ShaderOther { description } =>
                "program creation error: ".to_owned().concat(description.as_str()),
            Fault::Present { message } =>
                "frame presentation failed: ".to_owned().concat(message.as_str()),
        }
    }
}

} // verus!
