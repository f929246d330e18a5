use env_access::env_vars::{var, var_default, EnvVarError, VarError};

fn not_unicode(depiction: &str) -> VarError {
    VarError::NotUnicode(depiction.to_string())
}

#[test]
fn var_not_present() {
    let key = "var_not_present";
    assert_eq!(
        var(key, Err(VarError::NotPresent)).unwrap_err().to_string(),
        "var_not_present: environment variable not found"
    );
}

#[test]
fn var_not_unicode() {
    let key = "var_not_unicode";
    assert_eq!(
        var(key, Err(not_unicode(r#""\x80""#))).unwrap_err().to_string(),
        r#"var_not_unicode: environment variable was not valid unicode: "\x80""#
    );
}

#[test]
fn var_is_empty() {
    let key = "var_is_empty";
    assert_eq!(var(key, Ok(String::new())).unwrap(), "");
}

#[test]
fn var_is_present() {
    let key = "var_is_present";
    assert_eq!(var(key, Ok("present".to_string())).unwrap(), "present");
}

#[test]
fn var_default_not_present() {
    let key = "var_default_not_present";
    assert_eq!(
        var_default(key, "default", Err(VarError::NotPresent)).unwrap(),
        "default"
    );
}

#[test]
fn var_default_is_empty() {
    let key = "var_default_is_empty";
    assert_eq!(var_default(key, "default", Ok(String::new())).unwrap(), "default");
}

#[test]
fn var_default_is_present() {
    let key = "var_default_is_present";
    assert_eq!(
        var_default(key, "default", Ok("present".to_string())).unwrap(),
        "present"
    );
}

#[test]
fn scenario_unset_message() {
    assert_eq!(
        var("X", Err(VarError::NotPresent)).unwrap_err().to_string(),
        "X: environment variable not found"
    );
}

#[test]
fn not_present_error_keeps_name_and_kind() {
    let err = var("HOME_DIR", Err(VarError::NotPresent)).unwrap_err();
    assert_eq!(err.name(), "HOME_DIR");
    assert_eq!(err.error(), &VarError::NotPresent);
    assert_eq!(err, EnvVarError::new("HOME_DIR".to_string(), VarError::NotPresent));
}

#[test]
fn not_unicode_message_holds_depiction() {
    let depiction = r#""ab\xFFc""#;
    let msg = var("RAW", Err(not_unicode(depiction))).unwrap_err().to_string();
    assert!(msg.contains(depiction));
    assert!(msg.starts_with("RAW: "));
}

#[test]
fn default_does_not_hide_malformed_value() {
    let err = var_default("RAW", "default", Err(not_unicode(r#""\x80""#))).unwrap_err();
    assert_eq!(err.name(), "RAW");
    assert_eq!(err.error(), &not_unicode(r#""\x80""#));
    assert_eq!(
        err.to_string(),
        r#"RAW: environment variable was not valid unicode: "\x80""#
    );
}

#[test]
fn default_may_be_empty() {
    assert_eq!(var_default("X", "", Err(VarError::NotPresent)).unwrap(), "");
    assert_eq!(var_default("X", "", Ok(String::new())).unwrap(), "");
}

#[test]
fn present_value_kept_verbatim() {
    let v = " spaced \t value ";
    assert_eq!(var("X", Ok(v.to_string())).unwrap(), v);
    assert_eq!(var_default("X", "default", Ok(v.to_string())).unwrap(), v);
}

#[test]
fn repeated_lookups_agree() {
    let reads = vec![
        Ok("present".to_string()),
        Ok(String::new()),
        Err(VarError::NotPresent),
        Err(not_unicode(r#""\x80""#)),
    ];
    for read in reads {
        assert_eq!(var("X", read.clone()), var("X", read.clone()));
        assert_eq!(
            var_default("X", "d", read.clone()),
            var_default("X", "d", read.clone())
        );
    }
}

#[test]
fn cause_text_of_each_kind() {
    assert_eq!(VarError::NotPresent.to_string(), "environment variable not found");
    assert_eq!(
        not_unicode("\"q\"").to_string(),
        "environment variable was not valid unicode: \"q\""
    );
}
