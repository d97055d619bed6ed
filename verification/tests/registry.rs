use engine2d::{RenderCtx, Renderer};

#[test]
fn add_shader_program_registers_and_rejects_duplicates() {
    let mut ctx = RenderCtx::create();
    let name = String::from("basic");
    assert!(ctx.add_shader_program(&name, 7).is_ok());
    // A second registration under the same name fails and changes nothing.
    assert!(ctx.add_shader_program(&name, 9).is_err());
    assert_eq!(ctx.get_shader_program(&name), Some(7));
}

#[test]
fn get_shader_program_absent_name_is_none() {
    let mut ctx = RenderCtx::create();
    let name = String::from("basic");
    assert!(ctx.add_shader_program(&name, 7).is_ok());
    assert_eq!(ctx.get_shader_program(&String::from("missing")), None);
    // The failed lookup had no side effect.
    assert_eq!(ctx.get_shader_program(&name), Some(7));
}

#[test]
fn add_shader_program_names_collide_only_on_exact_equality() {
    // Uniqueness is exact-equality: a name that merely contains, or is
    // contained in, a registered name is still free.
    let mut ctx = RenderCtx::create();
    assert!(ctx.add_shader_program(&String::from("shader"), 1).is_ok());
    assert!(ctx.add_shader_program(&String::from("shade"), 2).is_ok());
    assert!(ctx.add_shader_program(&String::from("shaders"), 3).is_ok());
    assert_eq!(ctx.get_shader_program(&String::from("shader")), Some(1));
    assert_eq!(ctx.get_shader_program(&String::from("shade")), Some(2));
    assert_eq!(ctx.get_shader_program(&String::from("shaders")), Some(3));
}

#[test]
fn registry_prior_contents_survive_collision() {
    let mut ctx = RenderCtx::create();
    assert!(ctx.add_shader_program(&String::from("a"), 1).is_ok());
    assert!(ctx.add_shader_program(&String::from("b"), 2).is_ok());
    assert!(ctx.add_shader_program(&String::from("a"), 99).is_err());
    assert_eq!(ctx.get_shader_program(&String::from("a")), Some(1));
    assert_eq!(ctx.get_shader_program(&String::from("b")), Some(2));
}

#[test]
fn renderer_registry_rejects_duplicates_too() {
    let mut r = Renderer::new();
    let name = String::from("pyramid");
    assert!(r.add_shader_program(&name, 4).is_ok());
    assert!(r.add_shader_program(&name, 5).is_err());
    assert!(r.add_shader_program(&String::from("pyr"), 5).is_ok());
}
