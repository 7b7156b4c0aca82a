use jsx_lint::diagnostic::{plain_text, text_of_three, MarkupElement, MarkupNode, Severity};
use jsx_lint::semantic::{
    global_library, module_library, resolve_identifier_callee, resolve_member_callee, Binding,
};
use jsx_lint::syntax::{CallTarget, ReactLibrary};
use jsx_lint::text::{is_name, is_text};
use jsx_lint::text_range::TextRange;
use jsx_lint::use_jsx_key_in_iterable::UseJsxKeyInIterable;

#[test]
fn missing_key_is_described() {
    let diagnostic = UseJsxKeyInIterable::diagnostic(&TextRange::new(7, 19)).unwrap();
    assert_eq!(diagnostic.category, "lint/correctness/useJsxKeyInIterable");
    assert_eq!(diagnostic.severity, Severity::Error);
    assert_eq!(diagnostic.range, TextRange::new(7, 19));
    assert_eq!(
        diagnostic.message,
        vec![
            MarkupNode::plain("Missing "),
            MarkupNode::emphasis("key"),
            MarkupNode::plain(" property for this element in iterable."),
        ]
    );
    assert_eq!(
        diagnostic.notes,
        vec![
            vec![MarkupNode::plain(
                "The order of the items may change, and having a key can help React identify which item was moved."
            )],
            vec![
                MarkupNode::plain("Check the "),
                MarkupNode::hyperlink(
                    "https://react.dev/learn/rendering-lists#why-does-react-need-keys",
                    "React documentation"
                ),
                MarkupNode::plain(". "),
            ],
        ]
    );
}

#[test]
fn pieces_of_text_are_built_as_named() {
    assert_eq!(MarkupNode::plain("a"), MarkupNode { element: None, content: "a".to_string() });
    assert_eq!(
        MarkupNode::emphasis("b"),
        MarkupNode { element: Some(MarkupElement::Emphasis), content: "b".to_string() }
    );
    assert_eq!(
        MarkupNode::hyperlink("https://example.org", "c"),
        MarkupNode {
            element: Some(MarkupElement::Hyperlink { href: "https://example.org".to_string() }),
            content: "c".to_string()
        }
    );
    assert_eq!(plain_text("a"), vec![MarkupNode::plain("a")]);
    assert_eq!(
        text_of_three(MarkupNode::plain("a"), MarkupNode::emphasis("b"), MarkupNode::plain("c")),
        vec![MarkupNode::plain("a"), MarkupNode::emphasis("b"), MarkupNode::plain("c")]
    );
}

#[test]
fn range_keeps_its_ends() {
    let range = TextRange::new(3, 9);
    assert_eq!(range.start, 3);
    assert_eq!(range.end, 9);
    assert_eq!(range, TextRange { start: 3, end: 9 });
    assert_ne!(range, TextRange::new(3, 10));
}

#[test]
fn names_are_compared_exactly() {
    assert!(is_text("key", "key"));
    assert!(!is_text("key", "Key"));
    assert!(!is_text("key", "ke"));
    assert!(!is_text("", "key"));
    assert!(is_text("", ""));
    assert!(is_text("clé€", "clé€"));
    assert!(!is_text("clé€", "cle€"));
    assert!(!is_text("kez", "key"));
    assert!(is_name(&Some("img".to_string()), "img"));
    assert!(!is_name(&Some("img".to_string()), "image"));
    assert!(!is_name(&None, ""));
}

#[test]
fn callee_is_resolved_from_what_its_identifier_is_bound_to() {
    let text = |s: &str| s.to_string();
    let react = |name: &str| Some(CallTarget { library: ReactLibrary::React, export_name: text(name) });
    assert_eq!(module_library(&text("react")), Some(ReactLibrary::React));
    assert_eq!(module_library(&text("react-dom")), Some(ReactLibrary::ReactDom));
    assert_eq!(module_library(&text("React")), None);
    assert_eq!(module_library(&text("lodash")), None);
    assert_eq!(global_library(&text("React")), Some(ReactLibrary::React));
    assert_eq!(global_library(&text("ReactDOM")), Some(ReactLibrary::ReactDom));
    assert_eq!(global_library(&text("react")), None);
    assert_eq!(
        resolve_member_callee(&text("React"), &Binding::Global, &text("createElement")),
        react("createElement")
    );
    assert_eq!(resolve_member_callee(&text("Preact"), &Binding::Global, &text("createElement")), None);
    assert_eq!(
        resolve_member_callee(
            &text("R"),
            &Binding::ImportedModule { source: text("react") },
            &text("cloneElement")
        ),
        react("cloneElement")
    );
    assert_eq!(
        resolve_member_callee(
            &text("React"),
            &Binding::ImportedModule { source: text("not-react") },
            &text("createElement")
        ),
        None
    );
    assert_eq!(resolve_member_callee(&text("React"), &Binding::Other, &text("createElement")), None);
    assert_eq!(
        resolve_member_callee(
            &text("React"),
            &Binding::ImportedName { source: text("react"), imported: text("default") },
            &text("createElement")
        ),
        None
    );
    assert_eq!(
        resolve_identifier_callee(&Binding::ImportedName {
            source: text("react"),
            imported: text("createElement")
        }),
        react("createElement")
    );
    assert_eq!(
        resolve_identifier_callee(&Binding::ImportedName {
            source: text("react-dom"),
            imported: text("render")
        }),
        Some(CallTarget { library: ReactLibrary::ReactDom, export_name: text("render") })
    );
    assert_eq!(
        resolve_identifier_callee(&Binding::ImportedName {
            source: text("lodash"),
            imported: text("createElement")
        }),
        None
    );
    assert_eq!(resolve_identifier_callee(&Binding::Global), None);
    assert_eq!(resolve_identifier_callee(&Binding::ImportedModule { source: text("react") }), None);
    assert_eq!(resolve_identifier_callee(&Binding::Other), None);
}
