use bevy_ui_proxy::error::ProxyUiStateError;

#[test]
fn error_texts() {
    assert_eq!(
        ProxyUiStateError::MultipleProxyUiPerEntity.as_str(),
        "Multiple proxy UI per entity"
    );
    assert_eq!(ProxyUiStateError::DuplicateProxyUi.as_str(), "Duplicate proxy UI");
    assert_eq!(
        ProxyUiStateError::MultipleProxyUiPerEntity.to_text(),
        String::from("Multiple proxy UI per entity")
    );
    assert_eq!(ProxyUiStateError::DuplicateProxyUi.to_text(), String::from("Duplicate proxy UI"));
}

#[test]
fn error_converts_into_text() {
    let by_ref: &'static str = (&ProxyUiStateError::DuplicateProxyUi).into();
    assert_eq!(by_ref, "Duplicate proxy UI");
    let by_value: &'static str = ProxyUiStateError::MultipleProxyUiPerEntity.into();
    assert_eq!(by_value, "Multiple proxy UI per entity");
}
