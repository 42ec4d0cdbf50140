use vstd::prelude::*;

verus! {

/// Shading-language dialect of the target platform.
#[derive(Clone, Copy, Debug, PartialEq, Eq, Structural)]
pub enum Dialect {
    /// GLSL ES 3.00, for the web and other constrained targets.
    Constrained,
    /// GLSL 3.30, for desktop targets.
    Full,
}

/// The two programmable stages of the pipeline.
#[derive(Clone, Copy, Debug, PartialEq, Eq, Structural)]
pub enum ShaderStage {
    Vertex,
    Fragment,
}

/// Body of the vertex stage: passes the position through.
pub const VERTEX_SHADER_SOURCE: &'static str = "
    layout(location = 0) in vec4 position;

    void main() {
        gl_Position = position;
    }
";

/// Body of the fragment stage: paints every fragment with `u_color`.
pub const FRAGMENT_SHADER_SOURCE: &'static str = "
    layout(location = 0) out vec4 color;

    uniform vec4 u_color;

    void main() {
        color = u_color;
    }
";

/// Name of the colour uniform that the fragment stage reads.
pub const COLOR_UNIFORM: &'static str = "u_color";

pub open spec fn directive_text(d: Dialect) -> Seq<char> {
    match d {
        Dialect::Constrained => "#version 300 es"@,
        Dialect::Full => "#version 330"@,
    }
}

pub open spec fn stage_body(stage: ShaderStage) -> Seq<char> {
    match stage {
        ShaderStage::Vertex => VERTEX_SHADER_SOURCE@,
        ShaderStage::Fragment => FRAGMENT_SHADER_SOURCE@,
    }
}

/// The text handed to the compiler: the dialect's version directive on a line
/// of its own, then the stage's body.
pub open spec fn stage_text(d: Dialect, stage: ShaderStage) -> Seq<char> {
    directive_text(d) + seq!['\n'] + stage_body(stage)
}

/// The version directive line of a dialect, without its line break.
pub fn version_directive(d: Dialect) -> (r: &'static str)
    ensures
        r@ == directive_text(d),
{
    match d {
        Dialect::Constrained => "#version 300 es",
        Dialect::Full => "#version 330",
    }
}

/// The fixed source body of a stage.
pub fn stage_source(stage: ShaderStage) -> (r: &'static str)
    ensures
        r@ == stage_body(stage),
{
    match stage {
        ShaderStage::Vertex => VERTEX_SHADER_SOURCE,
        ShaderStage::Fragment => FRAGMENT_SHADER_SOURCE,
    }
}

/// The complete source of one stage in one dialect.
pub fn shader_source_text(d: Dialect, stage: ShaderStage) -> (r: String)
    ensures
        r@ == stage_text(d, stage),
{
    let mut text = String::from_str(version_directive(d));
    text.append("\n");
    text.append(stage_source(stage));
    proof {
        reveal_strlit("\n");
    }
    text
}

} // verus!
