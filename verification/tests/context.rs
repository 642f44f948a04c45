use reasoner::context::{Excerpt, RContext};

fn rendered(context: &RContext) -> String {
    let mut s = String::from("|");
    context.to_message(&mut s);
    s
}

#[test]
fn a_file_renders_with_its_text_trimmed() {
    let context = RContext::File {
        path: "src/lib.rs".to_string(),
        text: "\n\u{a0} fn main() {}\n  // end\t\r\n\u{3000}".to_string(),
    };
    assert_eq!(
        rendered(&context),
        "|<file path=\"src/lib.rs\">\nfn main() {}\n  // end\n</file>\n"
    );
}

#[test]
fn zero_width_space_is_not_trimmed() {
    let context = RContext::RecentChanges { diff: " \u{200b}x\u{feff} ".to_string() };
    assert_eq!(
        rendered(&context),
        "|<recent_changes>\n\u{200b}x\u{feff}\n</recent_changes>\n"
    );
}

#[test]
fn every_white_space_character_is_trimmed() {
    let white = "\u{9}\u{a}\u{b}\u{c}\u{d} \u{85}\u{a0}\u{1680}\u{2000}\u{2001}\u{2002}\u{2003}\u{2004}\u{2005}\u{2006}\u{2007}\u{2008}\u{2009}\u{200a}\u{2028}\u{2029}\u{202f}\u{205f}\u{3000}";
    let context = RContext::Knowledge {
        title: "t".to_string(),
        text: format!("{white}a{white}b{white}"),
    };
    assert_eq!(
        rendered(&context),
        format!("|<knowledge title=\"t\">\na{white}b\n</knowledge>\n")
    );
}

#[test]
fn excerpts_render_as_sections_without_a_final_line_break() {
    let context = RContext::MultiBuf {
        title: "References to `Foo::bar()`".to_string(),
        excerpts: vec![
            Excerpt { path: "a.rs".to_string(), visible_text: " one ".to_string() },
            Excerpt { path: "b.rs".to_string(), visible_text: "two\n".to_string() },
        ],
    };
    assert_eq!(
        rendered(&context),
        "|<excerpts title=\"References to `Foo::bar()`\">\n<section file=\"a.rs\">\none\n</section>\n<section file=\"b.rs\">\ntwo\n</section>\n</excerpts>"
    );
}

#[test]
fn no_excerpts_render_as_an_empty_element() {
    let context = RContext::MultiBuf { title: "none".to_string(), excerpts: vec![] };
    assert_eq!(rendered(&context), "|<excerpts title=\"none\">\n</excerpts>");
}

#[test]
fn a_blank_text_renders_as_an_empty_line() {
    let context = RContext::Knowledge { title: "t".to_string(), text: " \n ".to_string() };
    assert_eq!(rendered(&context), "|<knowledge title=\"t\">\n\n</knowledge>\n");
}

#[test]
fn a_command_renders_with_its_output() {
    let context = RContext::Command {
        command: "cargo test".to_string(),
        output: "ok\nCommand exited with status: exit status: 0\n".to_string(),
    };
    assert_eq!(
        rendered(&context),
        "|<command line=\"cargo test\">\nok\nCommand exited with status: exit status: 0\n</command>\n"
    );
}

#[test]
fn copies_render_alike() {
    let context = RContext::MultiBuf {
        title: "t".to_string(),
        excerpts: vec![Excerpt { path: "p".to_string(), visible_text: "v".to_string() }],
    };
    assert_eq!(rendered(&context.clone()), rendered(&context));
    let context = RContext::Command { command: "c".to_string(), output: "o".to_string() };
    assert_eq!(rendered(&context.clone()), rendered(&context));
}
