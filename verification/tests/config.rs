use lucet_core::config::{Backend, BackendConfig, Config, ExeConfig, Generator, Target};

#[test]
fn target_names_resolve() {
    assert_eq!(Target::from("x86"), Target::X86);
    assert_eq!(Target::from("x86_64"), Target::X86_64);
    assert_eq!(Target::from("x86_64_32"), Target::X86_64_32);
    assert_eq!(Target::from("generic"), Target::Generic);
    // Unrecognized names select the generic target.
    assert_eq!(Target::from("Generic"), Target::Generic);
    assert_eq!(Target::from("sparc"), Target::Generic);
    assert_eq!(Target::from(""), Target::Generic);
}

#[test]
fn backend_names_resolve() {
    assert_eq!(Backend::from("rust"), Backend::Rust);
    assert_eq!(Backend::from("c"), Backend::C);
    assert_eq!(Backend::from("anything-else"), Backend::C);
}

#[test]
fn parse_combines_the_options() {
    let config = Config::parse("x86_64", "rust", false);
    assert_eq!(config.target, Target::X86_64);
    assert_eq!(config.backend, Backend::Rust);
    assert_eq!(config.backend_config, BackendConfig { zero_native_pointers: false });
}

#[test]
fn zero_native_pointers_forces_generic_target() {
    let config = Config::parse("x86_64", "c", true);
    assert_eq!(config.target, Target::Generic);
    assert_eq!(config.backend, Backend::C);
    assert_eq!(config.backend_config, BackendConfig { zero_native_pointers: true });
}

#[test]
fn generator_follows_the_backend() {
    let c = Config::parse("x86", "c", false);
    assert_eq!(
        c.generator(),
        Generator::C {
            target: Target::X86,
            backend_config: BackendConfig { zero_native_pointers: false },
        }
    );
    let rust = Config::parse("x86", "rust", true);
    assert_eq!(
        rust.generator(),
        Generator::Rust {
            target: Target::Generic,
            backend_config: BackendConfig { zero_native_pointers: true },
        }
    );
}

#[test]
fn default_config_is_generic_c() {
    let config = Config::default();
    assert_eq!(config.target, Target::Generic);
    assert_eq!(config.backend, Backend::C);
    assert!(!config.backend_config.zero_native_pointers);
}

#[test]
fn exe_config_carries_paths_and_config() {
    let exe = ExeConfig {
        input_path: "idl/example.idl".to_string(),
        output_path: None,
        config: Config::parse("generic", "c", false),
    };
    assert_eq!(exe.input_path, "idl/example.idl");
    assert!(exe.output_path.is_none());
    assert_eq!(exe.config.backend, Backend::C);
}
