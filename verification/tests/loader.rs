use classvm::class::simple_loader::simple_loader::{ClassPathType, SimpleClassLoader};
use classvm::class::{find_class, ClassLoader};
use classvm::env::Environment;
use classvm::error::DecodeError;
use classvm::jvm::VirtualMachine;

fn minimal_class() -> Vec<u8> {
    vec![
        0xCA, 0xFE, 0xBA, 0xBE, 0x00, 0x00, 0x00, 0x34, 0x00, 0x01, 0x00, 0x21, 0x00, 0x00, 0x00,
        0x00, 0x00, 0x00, 0x00, 0x00, 0x00, 0x00, 0x00, 0x00,
    ]
}

#[test]
fn it_works() {
    let mut loaders: Vec<SimpleClassLoader> = vec![];

    let rt_class_loader: SimpleClassLoader =
        SimpleClassLoader::new("D:\\JVM\\rt\\".to_string(), ClassPathType::Folder);
    loaders.push(rt_class_loader);

    let my_class_loader: SimpleClassLoader = SimpleClassLoader::new(
        "D:\\Rustlang\\JVM\\Test\\out\\production\\Test\\".to_string(),
        ClassPathType::Folder,
    );
    loaders.push(my_class_loader);

    let env: Environment<SimpleClassLoader> = Environment::new(loaders);
    assert!(env.load_class("test/Main").is_none());
}

#[test]
fn class_file_path_uses_backslashes() {
    let loader = SimpleClassLoader::new("D:\\JVM\\rt\\".to_string(), ClassPathType::Folder);
    assert_eq!(loader.class_file_path("test/Main"), "D:\\JVM\\rt\\test\\Main.class");
    assert_eq!(loader.class_file_path("java/lang/Object"), "D:\\JVM\\rt\\java\\lang\\Object.class");
    assert_eq!(loader.class_file_path(""), "D:\\JVM\\rt\\.class");
}

#[test]
fn defined_class_is_found_by_name() {
    let mut loader = SimpleClassLoader::new("cp/".to_string(), ClassPathType::Folder);
    assert!(loader.load_class("test/Main").is_none());
    assert_eq!(loader.define_class("test/Main", minimal_class()), Ok(()));
    let class = loader.load_class("test/Main").expect("defined above");
    assert_eq!(class.name, "test/Main");
    assert_eq!(class.file.major_version, 52);
    assert!(loader.load_class("test/Other").is_none());
}

#[test]
fn failed_definition_leaves_loader_unchanged() {
    let mut loader = SimpleClassLoader::new("cp/".to_string(), ClassPathType::Folder);
    assert_eq!(loader.define_class("Bad", vec![0, 1, 2, 3]), Err(DecodeError::MalformedHeader));
    assert_eq!(loader.define_class("Short", vec![0xCA]), Err(DecodeError::TruncatedInput));
    assert!(loader.classes.is_empty());
    assert!(loader.load_class("Bad").is_none());
}

#[test]
fn environment_asks_loaders_in_order() {
    let mut first = SimpleClassLoader::new("a/".to_string(), ClassPathType::Folder);
    let mut second = SimpleClassLoader::new("b/".to_string(), ClassPathType::Folder);
    let mut newer = minimal_class();
    newer[7] = 0x35;
    first.define_class("Only", minimal_class()).unwrap();
    second.define_class("Only", newer.clone()).unwrap();
    second.define_class("Late", newer).unwrap();
    let env = Environment::new(vec![first, second]);
    assert_eq!(env.load_class("Only").unwrap().file.major_version, 52);
    assert_eq!(env.load_class("Late").unwrap().file.major_version, 53);
    assert!(env.load_class("None").is_none());
    assert_eq!(find_class(&env.class_loaders, "Late").unwrap().name, "Late");
}

#[test]
fn virtual_machine_asks_loaders_in_order() {
    let mut only = SimpleClassLoader::new("a/".to_string(), ClassPathType::Folder);
    only.define_class("Main", minimal_class()).unwrap();
    let vm = VirtualMachine::new(vec![
        SimpleClassLoader::new("empty/".to_string(), ClassPathType::Folder),
        only,
    ]);
    assert_eq!(vm.load_class("Main").unwrap().name, "Main");
    assert!(vm.load_class("Missing").is_none());
    let none: VirtualMachine<SimpleClassLoader> = VirtualMachine::new(vec![]);
    assert!(none.load_class("Main").is_none());
}
