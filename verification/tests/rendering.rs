use httpserver::html::{gethtml, RenderError};

#[test]
fn fragments_are_substituted_into_the_base() {
    let base = "<nav>{{ nav }}</nav><main>{{ body }}</main>";
    let page = gethtml(base, "links", "<p>welcome</p>").unwrap();
    assert_eq!(page, "<nav>links</nav><main><p>welcome</p></main>");
}

#[test]
fn base_without_placeholders_passes_through() {
    let page = gethtml("<html></html>", "n", "b").unwrap();
    assert_eq!(page, "<html></html>");
}

#[test]
fn broken_template_is_a_per_connection_error() {
    let err = gethtml("<main>{{ body </main>", "n", "b").unwrap_err();
    assert_eq!(err, RenderError::Template);
}
