use std::collections::BTreeMap;
use templater::bindings::Bindings;
use templater::render::{render_path, TemplateError};
use templater::template::is_plain_template;

fn bindings() -> Bindings {
    let mut b = Bindings::new();
    b.insert("a".to_string(), "1".to_string());
    b
}

/// What the renderer itself makes of a template, without the library in between.
fn direct(text: &str) -> Option<String> {
    let mut reg = handlebars::Handlebars::new();
    reg.register_escape_fn(handlebars::no_escape);
    let mut data = BTreeMap::new();
    data.insert("a".to_string(), "1".to_string());
    reg.render_template(text, &data).ok()
}

const PIECES: [&str; 40] = [
    "", "x", " ", "\n", "\\", "\\\\", "{", "{{", "{{{", "{{{{", "}", "}}", "}}}", "}}}}", "\"",
    "'", "!", "!--", "--", "--}}", "-", "#", "/", "~", "a", "(", ")", "[", "]", ">", "*", "=",
    "{{a}}", "{{!", "{{!--", "{{{{raw}}}}", "{{{{/raw}}}}", "\\{{", "{{#if a}}", "{{/if}}",
];

const FEWER: [&str; 12] = [
    "\\", "{{", "{{{", "}}", "\"", "'", "!", "--", "--}}", "\\{{", "a", "{{{{raw}}}}",
];

fn deep_blocks() -> String {
    "{{#if a}}".repeat(1100)
}

fn deep_calls() -> String {
    format!("{{{{a {}", "(a ".repeat(1500))
}

fn deep_lists() -> String {
    format!("{{{{a {}", "[".repeat(3000))
}

fn deep_partial() -> String {
    "{{#*inline \"p\"}}{{> p}}{{/inline}}{{> p}}".to_string()
}

/// Renders what is plain. A template that the reader takes for plain while it nests too
/// deep, or calls a partial, ends the process here.
fn hold(text: &str) {
    if is_plain_template(text) {
        let ours = render_path(text, &bindings());
        assert_ne!(ours, Err(TemplateError::NotPlain));
        assert_eq!(ours.ok(), direct(text), "{:?}", text);
    } else {
        assert_eq!(render_path(text, &bindings()), Err(TemplateError::NotPlain));
    }
}

#[test]
fn pieces_do_not_hide_deep_blocks() {
    let tail = deep_blocks();
    for first in PIECES {
        for second in PIECES {
            hold(&format!("{}{}{}", first, second, tail));
        }
    }
}

#[test]
fn pieces_do_not_hide_deep_calls() {
    let tail = deep_calls();
    for first in PIECES {
        for second in PIECES {
            hold(&format!("{}{}{}", first, second, tail));
        }
    }
}

#[test]
fn pieces_do_not_hide_deep_lists() {
    let tail = deep_lists();
    for first in PIECES {
        for second in PIECES {
            hold(&format!("{}{}{}", first, second, tail));
        }
    }
    for first in PIECES {
        for second in PIECES {
            hold(&format!("{{{{a {}{}{}", first, second, "[".repeat(3000)));
            hold(&format!("{{{{a [{}{}{}", first, second, "[1,".repeat(3000)));
            hold(&format!("{{{{a [{}{}{}", first, second, "{\"a\":".repeat(3000)));
        }
    }
}

#[test]
fn pieces_do_not_hide_a_partial_that_calls_itself() {
    let tail = deep_partial();
    for first in PIECES {
        for second in PIECES {
            for third in PIECES {
                hold(&format!("{}{}{}{}", first, second, third, tail));
            }
        }
    }
}

#[test]
fn three_pieces_do_not_hide_deep_blocks() {
    let tail = deep_blocks();
    for first in &FEWER[..10] {
        for second in &FEWER[..10] {
            for third in &FEWER[..10] {
                hold(&format!("{}{}{}{}", first, second, third, tail));
            }
        }
    }
}

#[test]
fn three_pieces_do_not_hide_deep_calls() {
    let tail = deep_calls();
    for first in &FEWER[..10] {
        for second in &FEWER[..10] {
            for third in &FEWER[..10] {
                hold(&format!("{}{}{}{}", first, second, third, tail));
            }
        }
    }
}

#[test]
fn plain_text_renders_as_the_renderer_renders_it() {
    for first in PIECES {
        for second in PIECES {
            for third in FEWER {
                hold(&format!("{}{}{}", first, second, third));
            }
        }
    }
}

#[test]
fn plain_tags_render_as_the_renderer_renders_them() {
    for first in PIECES {
        for second in PIECES {
            for third in FEWER {
                hold(&format!("{{{{a {}{}{}}}}}", first, second, third));
            }
        }
    }
}

#[test]
fn plain_tails_render_as_the_renderer_renders_them() {
    for first in FEWER {
        for second in PIECES {
            for third in PIECES {
                hold(&format!("{}{}{} {{{{a}}}}", first, second, third));
            }
        }
    }
}
