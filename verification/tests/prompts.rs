#[test]
fn placeholder_for_interactive_prompt_module() {
    // Interactive terminal input is not unit tested here. Validation
    // performed after input is covered by the smart-card and vault layers.
    assert!(true);
}
