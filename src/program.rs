use vstd::prelude::*;
use crate::shader::{Dialect, ShaderStage};

verus! {

/// Where the construction of a shader program stands.
#[derive(Clone, Copy, Debug, PartialEq, Eq, Structural)]
pub enum BuildPhase {
    AwaitProgram,
    AwaitVertexShader,
    CompilingVertex,
    AwaitFragmentShader,
    CompilingFragment,
    Linking,
    Linked,
    Failed,
}

/// What the graphics context answered to the last action.
#[derive(Clone, Copy, Debug, PartialEq, Eq, Structural)]
pub enum BuildEvent {
    /// An object was created, with this handle.
    Created(u32),
    /// The compile or link status of the object just built.
    Status(bool),
}

/// What the graphics context must do next.
#[derive(Clone, Copy, Debug, PartialEq, Eq, Structural)]
pub enum BuildAction {
    /// Create an empty program object; answer `Created`.
    CreateProgram,
    /// Create a shader object for the stage; answer `Created`.
    CreateShader { stage: ShaderStage },
    /// Load the stage's source text in the dialect into the shader, compile
    /// it; answer `Status` with the compile status.
    CompileShader { shader: u32, stage: ShaderStage, dialect: Dialect },
    /// Attach both stages to the program and link it; answer `Status` with
    /// the link status.
    LinkProgram { program: u32, vertex: u32, fragment: u32 },
    /// Detach both stages from the linked program and delete them. The
    /// program is then ready; nothing more is asked.
    ReleaseStages { program: u32, vertex: u32, fragment: u32 },
    /// Compiling the stage failed: stop with the shader's info log.
    AbortCompile { shader: u32, stage: ShaderStage },
    /// Linking failed: stop with the program's info log.
    AbortLink { program: u32 },
    /// The answer did not fit the last action: stop.
    AbortOutOfOrder,
}

/// The state of one program construction. Handles that are not yet known
/// hold zero.
#[derive(Clone, Copy, Debug, PartialEq, Eq, Structural)]
pub struct ProgramBuild {
    pub dialect: Dialect,
    pub phase: BuildPhase,
    pub program: u32,
    pub vertex: u32,
    pub fragment: u32,
}

/// The state before any object exists, and the first action.
pub open spec fn initial_build(d: Dialect) -> (ProgramBuild, BuildAction) {
    (
        ProgramBuild { dialect: d, phase: BuildPhase::AwaitProgram, program: 0, vertex: 0, fragment: 0 },
        BuildAction::CreateProgram,
    )
}

/// One transition: the state after the answer `e`, and the next action.
pub open spec fn next_build(s: ProgramBuild, e: BuildEvent) -> (ProgramBuild, BuildAction) {
    let failed = ProgramBuild { phase: BuildPhase::Failed, ..s };
    match (s.phase, e) {
        (BuildPhase::AwaitProgram, BuildEvent::Created(h)) => (
            ProgramBuild { phase: BuildPhase::AwaitVertexShader, program: h, ..s },
            BuildAction::CreateShader { stage: ShaderStage::Vertex },
        ),
        (BuildPhase::AwaitVertexShader, BuildEvent::Created(h)) => (
            ProgramBuild { phase: BuildPhase::CompilingVertex, vertex: h, ..s },
            BuildAction::CompileShader { shader: h, stage: ShaderStage::Vertex, dialect: s.dialect },
        ),
        (BuildPhase::CompilingVertex, BuildEvent::Status(ok)) => if ok {
            (
                ProgramBuild { phase: BuildPhase::AwaitFragmentShader, ..s },
                BuildAction::CreateShader { stage: ShaderStage::Fragment },
            )
        } else {
            (failed, BuildAction::AbortCompile { shader: s.vertex, stage: ShaderStage::Vertex })
        },
        (BuildPhase::AwaitFragmentShader, BuildEvent::Created(h)) => (
            ProgramBuild { phase: BuildPhase::CompilingFragment, fragment: h, ..s },
            BuildAction::CompileShader { shader: h, stage: ShaderStage::Fragment, dialect: s.dialect },
        ),
        (BuildPhase::CompilingFragment, BuildEvent::Status(ok)) => if ok {
            (
                ProgramBuild { phase: BuildPhase::Linking, ..s },
                BuildAction::LinkProgram { program: s.program, vertex: s.vertex, fragment: s.fragment },
            )
        } else {
            (failed, BuildAction::AbortCompile { shader: s.fragment, stage: ShaderStage::Fragment })
        },
        (BuildPhase::Linking, BuildEvent::Status(ok)) => if ok {
            (
                ProgramBuild { phase: BuildPhase::Linked, ..s },
                BuildAction::ReleaseStages { program: s.program, vertex: s.vertex, fragment: s.fragment },
            )
        } else {
            (failed, BuildAction::AbortLink { program: s.program })
        },
        _ => (failed, BuildAction::AbortOutOfOrder),
    }
}

/// The state after a run of answers from `s`, and every action asked on the way.
pub open spec fn run_build(s: ProgramBuild, events: Seq<BuildEvent>) -> (ProgramBuild, Seq<BuildAction>)
    decreases events.len(),
{
    if events.len() == 0 {
        (s, Seq::empty())
    } else {
        let (s1, a) = next_build(s, events[0]);
        let (s2, rest) = run_build(s1, events.drop_first());
        (s2, seq![a] + rest)
    }
}

impl ProgramBuild {
    /// Begins the construction of a program in dialect `d`; returns the
    /// state and the first action.
    pub fn start(d: Dialect) -> (r: (ProgramBuild, BuildAction))
        ensures
            r == initial_build(d),
    {
        (
            ProgramBuild { dialect: d, phase: BuildPhase::AwaitProgram, program: 0, vertex: 0, fragment: 0 },
            BuildAction::CreateProgram,
        )
    }

    /// Takes the context's answer to the last action and returns the next one.
    pub fn step(&mut self, e: BuildEvent) -> (a: BuildAction)
        ensures
            (*final(self), a) == next_build(*old(self), e),
    {
        let s = *self;
        let failed = ProgramBuild { phase: BuildPhase::Failed, ..s };
        match (s.phase, e) {
            (BuildPhase::AwaitProgram, BuildEvent::Created(h)) => {
                *self = ProgramBuild { phase: BuildPhase::AwaitVertexShader, program: h, ..s };
                BuildAction::CreateShader { stage: ShaderStage::Vertex }
            },
            (BuildPhase::AwaitVertexShader, BuildEvent::Created(h)) => {
                *self = ProgramBuild { phase: BuildPhase::CompilingVertex, vertex: h, ..s };
                BuildAction::CompileShader { shader: h, stage: ShaderStage::Vertex, dialect: s.dialect }
            },
            (BuildPhase::CompilingVertex, BuildEvent::Status(ok)) => {
                if ok {
                    *self = ProgramBuild { phase: BuildPhase::AwaitFragmentShader, ..s };
                    BuildAction::CreateShader { stage: ShaderStage::Fragment }
                } else {
                    *self = failed;
                    BuildAction::AbortCompile { shader: s.vertex, stage: ShaderStage::Vertex }
                }
            },
            (BuildPhase::AwaitFragmentShader, BuildEvent::Created(h)) => {
                *self = ProgramBuild { phase: BuildPhase::CompilingFragment, fragment: h, ..s };
                BuildAction::CompileShader { shader: h, stage: ShaderStage::Fragment, dialect: s.dialect }
            },
            (BuildPhase::CompilingFragment, BuildEvent::Status(ok)) => {
                if ok {
                    *self = ProgramBuild { phase: BuildPhase::Linking, ..s };
                    BuildAction::LinkProgram { program: s.program, vertex: s.vertex, fragment: s.fragment }
                } else {
                    *self = failed;
                    BuildAction::AbortCompile { shader: s.fragment, stage: ShaderStage::Fragment }
                }
            },
            (BuildPhase::Linking, BuildEvent::Status(ok)) => {
                if ok {
                    *self = ProgramBuild { phase: BuildPhase::Linked, ..s };
                    BuildAction::ReleaseStages { program: s.program, vertex: s.vertex, fragment: s.fragment }
                } else {
                    *self = failed;
                    BuildAction::AbortLink { program: s.program }
                }
            },
            _ => {
                *self = failed;
                BuildAction::AbortOutOfOrder
            },
        }
    }

    /// Whether the program is linked and its stages released.
    pub fn is_linked(&self) -> (r: bool)
        ensures
            r == (self.phase == BuildPhase::Linked),
    {
        self.phase == BuildPhase::Linked
    }
}

/// In either dialect, a context that creates every object and reports every
/// compile and link as successful ends with the linked program: each stage
/// compiled once in that dialect, one link, then both stages released.
pub proof fn lemma_build_succeeds(d: Dialect, p: u32, v: u32, f: u32)
    ensures
        run_build(
            initial_build(d).0,
            seq![
                BuildEvent::Created(p),
                BuildEvent::Created(v),
                BuildEvent::Status(true),
                BuildEvent::Created(f),
                BuildEvent::Status(true),
                BuildEvent::Status(true),
            ],
        ) == (
            ProgramBuild { dialect: d, phase: BuildPhase::Linked, program: p, vertex: v, fragment: f },
            seq![
                BuildAction::CreateShader { stage: ShaderStage::Vertex },
                BuildAction::CompileShader { shader: v, stage: ShaderStage::Vertex, dialect: d },
                BuildAction::CreateShader { stage: ShaderStage::Fragment },
                BuildAction::CompileShader { shader: f, stage: ShaderStage::Fragment, dialect: d },
                BuildAction::LinkProgram { program: p, vertex: v, fragment: f },
                BuildAction::ReleaseStages { program: p, vertex: v, fragment: f },
            ],
        ),
{
    let events = seq![
        BuildEvent::Created(p),
        BuildEvent::Created(v),
        BuildEvent::Status(true),
        BuildEvent::Created(f),
        BuildEvent::Status(true),
        BuildEvent::Status(true),
    ];
    reveal_with_fuel(run_build, 7);
    assert(events.drop_first() =~= events.subrange(1, 6));
    assert(events.subrange(1, 6).drop_first() =~= events.subrange(2, 6));
    assert(events.subrange(2, 6).drop_first() =~= events.subrange(3, 6));
    assert(events.subrange(3, 6).drop_first() =~= events.subrange(4, 6));
    assert(events.subrange(4, 6).drop_first() =~= events.subrange(5, 6));
    assert(events.subrange(5, 6).drop_first() =~= Seq::<BuildEvent>::empty());
    let r = run_build(initial_build(d).0, events);
    assert(r.1 =~= seq![
        BuildAction::CreateShader { stage: ShaderStage::Vertex },
        BuildAction::CompileShader { shader: v, stage: ShaderStage::Vertex, dialect: d },
        BuildAction::CreateShader { stage: ShaderStage::Fragment },
        BuildAction::CompileShader { shader: f, stage: ShaderStage::Fragment, dialect: d },
        BuildAction::LinkProgram { program: p, vertex: v, fragment: f },
        BuildAction::ReleaseStages { program: p, vertex: v, fragment: f },
    ]);
}

} // verus!
