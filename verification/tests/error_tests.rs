use wikirandom::error::{Error, HyperError, SerdeError, WikiError};

#[test]
fn test_error_predicates() {
    let hyper = Error::Hyper(HyperError { message: "connection reset".to_string() });
    assert!(hyper.is_hyper());
    assert!(!hyper.is_wiki());
    assert!(!hyper.is_serde());

    let wiki = Error::Wiki(WikiError { info: "bad title".to_string() });
    assert!(wiki.is_wiki());
    assert!(!wiki.is_hyper());

    let serde = Error::Serde(SerdeError { message: "trailing characters".to_string() });
    assert!(serde.is_serde());
    assert!(!serde.is_wiki());

    assert!(!Error::NoMembers.is_hyper());
    assert!(!Error::NoMembers.is_wiki());
    assert!(!Error::NoMembers.is_serde());
}

#[test]
fn test_error_equality() {
    assert_eq!(Error::NoMembers, Error::NoMembers);
    // transport failures compare equal whatever their text, as do
    // malformed bodies
    assert_eq!(
        Error::Hyper(HyperError { message: "a".to_string() }),
        Error::Hyper(HyperError { message: "b".to_string() })
    );
    assert_eq!(
        Error::Serde(SerdeError { message: "a".to_string() }),
        Error::Serde(SerdeError { message: "b".to_string() })
    );
    // the server's envelope compares by message
    assert_eq!(
        Error::Wiki(WikiError { info: "x".to_string() }),
        Error::Wiki(WikiError { info: "x".to_string() })
    );
    assert_ne!(
        Error::Wiki(WikiError { info: "x".to_string() }),
        Error::Wiki(WikiError { info: "y".to_string() })
    );
    assert_ne!(Error::NoMembers, Error::Hyper(HyperError { message: "a".to_string() }));
    assert_eq!(
        Error::UnknownMemberKind("file".to_string()),
        Error::UnknownMemberKind("file".to_string())
    );
    assert_ne!(
        Error::UnknownMemberKind("file".to_string()),
        Error::UnknownMemberKind("media".to_string())
    );
}
