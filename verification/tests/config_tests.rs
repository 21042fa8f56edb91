use notify::event::{AccessKind, CreateKind, DataChange, MetadataKind, ModifyKind, RemoveKind};
use notify::{Event, EventKind};
use yaiss::config::{
    classify_event, is_content_change, parse_ipv4, Configuration, ConfigurationError,
    FileEventKind,
};

fn sample_text() -> &'static str {
    "[DATABASE]\n\
     url = sqlite://sql/yaiss.db\n\
     migrations_path = sql/migrations\n\
     \n\
     [SERVER]\n\
     address = 0.0.0.0\n\
     port = 3000\n\
     \n\
     [IMAGE_SERVICE]\n\
     base_path = data\n"
}

#[test]
fn loads_a_full_configuration() {
    let c = Configuration::new(sample_text()).unwrap();
    assert_eq!(c.database_url(), "sqlite://sql/yaiss.db");
    assert_eq!(c.migrations_path(), "sql/migrations");
    assert_eq!(c.images_base_path(), "data");
    let address = c.address();
    assert_eq!(
        (address.octet_a, address.octet_b, address.octet_c, address.octet_d, address.port),
        (0, 0, 0, 0, 3000)
    );
}

#[test]
fn later_values_win_and_comments_are_passed_over() {
    let text = "; a comment\n\
                # another comment\n\
                [SERVER]\n\
                address=10.1.2.3\n\
                port=1\n\
                port=4000\n\
                [DATABASE]\n\
                url=a\n\
                migrations_path=b\n\
                [IMAGE_SERVICE]\n\
                base_path=c\n\
                [SERVER]\n\
                address = 192.168.0.1\n";
    let c = Configuration::new(text).unwrap();
    let address = c.address();
    assert_eq!(
        (address.octet_a, address.octet_b, address.octet_c, address.octet_d, address.port),
        (192, 168, 0, 1, 4000)
    );
}

#[test]
fn each_missing_key_names_its_error() {
    assert_eq!(Configuration::new("").err(), Some(ConfigurationError::MissingDatabaseUrl));
    let no_migrations = "[DATABASE]\nurl=a\n";
    assert_eq!(
        Configuration::new(no_migrations).err(), Some(ConfigurationError::MissingMigrationsPath)
    );
    let no_address = "[DATABASE]\nurl=a\nmigrations_path=b\n";
    assert_eq!(Configuration::new(no_address).err(), Some(ConfigurationError::MissingAddress));
    let no_port = "[DATABASE]\nurl=a\nmigrations_path=b\n[SERVER]\naddress=0.0.0.0\n";
    assert_eq!(Configuration::new(no_port).err(), Some(ConfigurationError::MissingPort));
    let no_base = "[DATABASE]\nurl=a\nmigrations_path=b\n[SERVER]\naddress=0.0.0.0\nport=1\n";
    assert_eq!(Configuration::new(no_base).err(), Some(ConfigurationError::MissingBasePath));
}

#[test]
fn malformed_values_are_fatal() {
    let bad_address = "[DATABASE]\nurl=a\nmigrations_path=b\n\
                       [SERVER]\naddress=0.0.0\nport=1\n\
                       [IMAGE_SERVICE]\nbase_path=c\n";
    assert_eq!(Configuration::new(bad_address).err(), Some(ConfigurationError::InvalidAddress));
    let bad_octet = bad_address.replace("0.0.0\n", "256.0.0.1\n");
    assert_eq!(
        Configuration::new(bad_octet.as_str()).err(), Some(ConfigurationError::InvalidAddress)
    );
    let bad_port = bad_address.replace("address=0.0.0", "address=1.2.3.4").replace(
        "port=1",
        "port=70000",
    );
    assert_eq!(Configuration::new(bad_port.as_str()).err(), Some(ConfigurationError::InvalidPort));
    let garbage = "[DATABASE]\nurl=a\nno equals sign here\n";
    assert_eq!(Configuration::new(garbage).err(), Some(ConfigurationError::Malformed));
    let unclosed = "[DATABASE\nurl=a\n";
    assert_eq!(Configuration::new(unclosed).err(), Some(ConfigurationError::Malformed));
}

#[test]
fn parses_dotted_quads() {
    assert_eq!(parse_ipv4("0.0.0.0"), Some((0, 0, 0, 0)));
    assert_eq!(parse_ipv4("192.168.0.255"), Some((192, 168, 0, 255)));
    assert_eq!(parse_ipv4("1.2.3"), None);
    assert_eq!(parse_ipv4("1.2.3.4.5"), None);
    assert_eq!(parse_ipv4("a.b.c.d"), None);
    assert_eq!(parse_ipv4("1..2.3"), None);
    assert_eq!(parse_ipv4("256.1.1.1"), None);
}

#[test]
fn has_change_answers_only_content_modification() {
    let quiet = vec![
        FileEventKind::Created,
        FileEventKind::OtherModification,
        FileEventKind::Removed,
        FileEventKind::Accessed,
        FileEventKind::Other,
    ];
    assert_eq!(Configuration::has_change(&quiet), None);
    let mut noisy = quiet.clone();
    noisy.push(FileEventKind::ContentModified);
    noisy.push(FileEventKind::Created);
    assert_eq!(Configuration::has_change(&noisy), Some(5));
    assert_eq!(Configuration::has_change(&vec![]), None);
}

#[test]
fn classifies_watcher_events() {
    let content = Event::new(EventKind::Modify(ModifyKind::Data(DataChange::Content)));
    assert_eq!(classify_event(&content), FileEventKind::ContentModified);
    assert!(is_content_change(&classify_event(&content)));

    let size = Event::new(EventKind::Modify(ModifyKind::Data(DataChange::Size)));
    assert_eq!(classify_event(&size), FileEventKind::OtherModification);
    let metadata = Event::new(EventKind::Modify(ModifyKind::Metadata(MetadataKind::Permissions)));
    assert_eq!(classify_event(&metadata), FileEventKind::OtherModification);
    let created = Event::new(EventKind::Create(CreateKind::File));
    assert_eq!(classify_event(&created), FileEventKind::Created);
    let removed = Event::new(EventKind::Remove(RemoveKind::File));
    assert_eq!(classify_event(&removed), FileEventKind::Removed);
    let accessed = Event::new(EventKind::Access(AccessKind::Read));
    assert_eq!(classify_event(&accessed), FileEventKind::Accessed);
    let any = Event::new(EventKind::Any);
    assert_eq!(classify_event(&any), FileEventKind::Other);

    for synthetic in [size, metadata, created, removed, accessed, any] {
        assert!(!is_content_change(&classify_event(&synthetic)));
    }
}
