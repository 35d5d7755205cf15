//! Text marshalling and error translation.

use hitchcock::marshal::{bool_to_byte, byte_to_bool, find_nul, to_c_bytes};
use hitchcock::{gl, glfw, imgui, stb_image, Error};

#[test]
fn to_c_bytes_appends_terminator() {
    let v = to_c_bytes("abc").unwrap();
    assert_eq!(v, vec![b'a', b'b', b'c', 0]);
    let v = to_c_bytes("").unwrap();
    assert_eq!(v, vec![0]);
}

#[test]
fn to_c_bytes_rejects_embedded_nul() {
    let e = to_c_bytes("ab\0c").unwrap_err();
    assert_eq!(e.position, 2);
    let e = to_c_bytes("\0").unwrap_err();
    assert_eq!(e.position, 0);
}

#[test]
fn find_nul_reports_first_position() {
    assert_eq!(find_nul(b"abc"), None);
    assert_eq!(find_nul(b"a\0b\0"), Some(1));
    assert_eq!(find_nul(b""), None);
}

#[test]
fn byte_conversions() {
    assert_eq!(bool_to_byte(true), 1);
    assert_eq!(bool_to_byte(false), 0);
    assert!(byte_to_bool(1));
    assert!(byte_to_bool(255));
    assert!(!byte_to_bool(0));
}

#[test]
fn window_title_rejects_embedded_nul() {
    let r = glfw::create_window_title("bad\0title");
    assert!(matches!(r, Err(glfw::Error::InvalidCString(t)) if t.position == 3));
    let v = glfw::create_window_title("Demo").unwrap();
    assert_eq!(v, vec![b'D', b'e', b'm', b'o', 0]);
}

#[test]
fn proc_name_rejects_embedded_nul() {
    let r = glfw::proc_name("gl\0Clear");
    assert!(matches!(r, Err(glfw::Error::InvalidCString(t)) if t.position == 2));
    assert_eq!(glfw::proc_name("x").unwrap(), vec![b'x', 0]);
}

#[test]
fn uniform_name_rejects_embedded_nul() {
    let r = gl::uniform_name("u\0v");
    assert!(matches!(r, Err(gl::Error::InvalidCString(t)) if t.position == 1));
}

#[test]
fn uniform_location_translation() {
    let r = gl::uniform_location_from_raw(-1, "myUniform");
    assert!(matches!(r, Err(gl::Error::NonActiveUniform(s)) if s == "myUniform"));
    let l = gl::uniform_location_from_raw(3, "myUniform").unwrap();
    assert_eq!(l.loc(), 3);
}

#[test]
fn shader_sources_marshalling() {
    let sources = vec!["void main() {}", "x"];
    let vs = gl::marshal_sources(&sources).unwrap();
    assert_eq!(vs.len(), 2);
    assert_eq!(vs[1], vec![b'x', 0]);
    assert_eq!(vs[0].last(), Some(&0));
    assert_eq!(&vs[0][..vs[0].len() - 1], "void main() {}".as_bytes());

    let bad = vec!["fine", "ba\0d"];
    let r = gl::marshal_sources(&bad);
    assert!(matches!(r, Err(gl::Error::InvalidCString(_))));

    let lengths = gl::source_lengths(&sources);
    assert_eq!(lengths, vec![14, 1]);
}

#[test]
fn widget_label_marshalling() {
    let r = imgui::marshal_label("la\0bel");
    assert!(matches!(r, Err(imgui::Error::InvalidCString(t)) if t.position == 2));
    assert_eq!(imgui::marshal_label("ok").unwrap(), vec![b'o', b'k', 0]);
}

#[test]
fn slider_format_marshalling() {
    assert_eq!(
        imgui::marshal_format(None).unwrap(),
        vec![b'%', b'.', b'3', b'f', 0]
    );
    assert_eq!(
        imgui::marshal_format(Some("%.1f")).unwrap(),
        vec![b'%', b'.', b'1', b'f', 0]
    );
    let r = imgui::marshal_format(Some("%\0f"));
    assert!(matches!(r, Err(imgui::Error::InvalidCString(_))));
}

#[test]
fn image_path_marshalling() {
    assert_eq!(stb_image::marshal_path(None), Err(stb_image::Error::InvalidUtf8));
    let r = stb_image::marshal_path(Some("a\0b"));
    assert!(matches!(r, Err(stb_image::Error::InvalidCString(t)) if t.position == 1));
    assert_eq!(
        stb_image::marshal_path(Some("img.png")).unwrap(),
        vec![b'i', b'm', b'g', b'.', b'p', b'n', b'g', 0]
    );
}

#[test]
fn result_translations() {
    assert_eq!(glfw::init_result(0), Err(glfw::Error::GlfwInit));
    assert_eq!(glfw::init_result(1), Ok(()));

    assert!(matches!(
        glfw::window_from_raw(0),
        Err(glfw::Error::GlfwCreateWindow)
    ));
    assert_eq!(glfw::window_from_raw(0x42).unwrap().addr(), 0x42);

    assert!(matches!(
        glfw::proc_from_raw(0),
        Err(glfw::Error::GlfwGetProcAddress)
    ));
    assert_eq!(glfw::proc_from_raw(0x99).unwrap().addr(), 0x99);

    assert_eq!(
        imgui::glfw_backend_init_result(0),
        Err(imgui::Error::ImGuiImplGlfwInitForOpenGL)
    );
    assert_eq!(imgui::glfw_backend_init_result(1), Ok(()));
    assert_eq!(
        imgui::opengl_backend_init_result(0),
        Err(imgui::Error::ImGuiImplOpenGL3Init)
    );
    assert_eq!(imgui::opengl_backend_init_result(1), Ok(()));

    assert!(!glfw::should_close_from_flag(0));
    assert!(glfw::should_close_from_flag(1));
    assert!(glfw::should_close_from_flag(-5));

    assert_eq!(stb_image::flip_flag(true), 1);
    assert_eq!(stb_image::flip_flag(false), 0);

    assert_eq!(gl::TexParam::Int(0x2901).value(), 0x2901);
}

#[test]
fn error_aggregation_and_descriptions() {
    let e = Error::from(glfw::Error::GlfwInit);
    assert_eq!(e, Error::Glfw(glfw::Error::GlfwInit));
    assert_eq!(e.describe(), "GLFW error");

    let e = Error::from(gl::Error::NonActiveUniform("u".to_string()));
    assert_eq!(e.describe(), "OpenGL error");

    let e = Error::from(imgui::Error::ImGuiImplOpenGL3Init);
    assert_eq!(e, Error::ImGui(imgui::Error::ImGuiImplOpenGL3Init));
    assert_eq!(e.describe(), "Dear ImGui error");

    let e = Error::from(stb_image::Error::Load);
    assert_eq!(e, Error::StbImage(stb_image::Error::Load));
    assert_eq!(e.describe(), "stb_image error");

    assert_eq!(glfw::Error::GlfwInit.describe(), "failed to initialize GLFW");
    assert_eq!(
        glfw::Error::GlfwCreateWindow.describe(),
        "failed to create GLFW window"
    );
    assert_eq!(
        gl::Error::NonActiveUniform("u".to_string()).describe(),
        "non-active uniform variable in program"
    );
    assert_eq!(stb_image::Error::Load.describe(), "failed to load image");
    assert_eq!(
        stb_image::Error::InvalidUtf8.describe(),
        "invalid UTF-8 string"
    );
}
