use custom3d_glow::{
    quad_indices, quad_vertex_coords, BuildAction, BuildEvent, Dialect, GlCommand, GlHandles, ProgramBuild,
    RotatingTriangle,
};

#[test]
fn quad_data_is_two_triangles_over_four_corners() {
    assert_eq!(quad_vertex_coords(), vec![-50, -50, 50, -50, 50, 50, -50, 50]);
    assert_eq!(quad_indices(), vec![0, 1, 2, 2, 3, 0]);
}

#[test]
fn first_frame_plan() {
    let mut t = RotatingTriangle::new(1, 2, 3, 4);
    assert_eq!(
        t.paint(),
        vec![
            GlCommand::UploadVertices { buffer: 3 },
            GlCommand::BindVertexArray { vertex_array: 2 },
            GlCommand::DeclarePositionLayout { attribute: 0, components: 2, stride_bytes: 8 },
            GlCommand::UploadIndices { buffer: 4 },
            GlCommand::UseProgram { program: 1 },
            GlCommand::SetColor { program: 1, red: 0, green: 20, blue: 20, alpha: 100 },
            GlCommand::DrawIndexedTriangles { index_count: 6 },
        ]
    );
    assert_eq!(t.counter(), 5);
}

#[test]
fn consecutive_frames_keep_their_buffers() {
    let mut t = RotatingTriangle::new(1, 2, 3, 4);
    let a = t.paint();
    let b = t.paint();
    assert_eq!(a.len(), b.len());
    for (x, y) in a.iter().zip(b.iter()) {
        match (x, y) {
            (GlCommand::SetColor { .. }, GlCommand::SetColor { .. }) => {}
            _ => assert_eq!(x, y),
        }
    }
    assert_eq!(t.handles(), GlHandles { program: 1, vertex_array: 2, vertex_buffer: 3, index_buffer: 4 });
}

#[test]
fn no_frame_draws_zero_indices() {
    let mut t = RotatingTriangle::new(5, 6, 7, 8);
    for _ in 0..50 {
        for c in t.paint() {
            if let GlCommand::DrawIndexedTriangles { index_count } = c {
                assert!(index_count > 0);
                assert_eq!(index_count as usize, quad_indices().len());
            }
        }
    }
}

#[test]
fn destroy_releases_every_object_once() {
    let mut t = RotatingTriangle::new(1, 2, 3, 4);
    assert!(t.is_live());
    let plan = t.destroy();
    assert_eq!(
        plan,
        vec![
            GlCommand::DeleteProgram { program: 1 },
            GlCommand::DeleteVertexArray { vertex_array: 2 },
            GlCommand::DeleteBuffer { buffer: 3 },
            GlCommand::DeleteBuffer { buffer: 4 },
        ]
    );
    assert!(!t.is_live());
}

#[test]
fn construct_draw_25_times_and_destroy() {
    let (mut b, first) = ProgramBuild::start(Dialect::Full);
    let mut actions = vec![first];
    actions.push(b.step(BuildEvent::Created(1)));
    actions.push(b.step(BuildEvent::Created(2)));
    actions.push(b.step(BuildEvent::Status(true)));
    actions.push(b.step(BuildEvent::Created(3)));
    actions.push(b.step(BuildEvent::Status(true)));
    actions.push(b.step(BuildEvent::Status(true)));
    assert!(b.is_linked());
    let compiles = actions.iter().filter(|a| matches!(a, BuildAction::CompileShader { .. })).count();
    let links = actions.iter().filter(|a| matches!(a, BuildAction::LinkProgram { .. })).count();
    let aborts = actions
        .iter()
        .filter(|a| {
            matches!(a, BuildAction::AbortCompile { .. } | BuildAction::AbortLink { .. } | BuildAction::AbortOutOfOrder)
        })
        .count();
    assert_eq!((compiles, links, aborts), (2, 1, 0));

    let mut t = RotatingTriangle::new(b.program, 10, 11, 12);
    let mut draws = 0;
    for _ in 0..25 {
        draws += t.paint().iter().filter(|c| matches!(c, GlCommand::DrawIndexedTriangles { .. })).count();
    }
    assert_eq!(draws, 25);
    assert_eq!(t.counter(), 20);
    let teardown = t.destroy();
    assert_eq!(teardown.len(), 4);
    assert!(teardown.contains(&GlCommand::DeleteProgram { program: 1 }));
    assert!(!t.is_live());
}
