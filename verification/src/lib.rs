//! Toolchain resolution for Android and Java build tooling.
//!
//! The resolvers locate the Android SDK root, the `android.jar` of a
//! platform version, the `d8.jar` of a build-tools version, the JDK home
//! and its `java`/`javac` executables, without the caller hardcoding
//! paths.  Resolution follows environment-variable override chains, falls
//! back to platform default locations and to a latest-installed-version
//! directory scan, normalizes partial platform-version strings, and parses
//! the compiler's version banner.
//!
//! Every resolver here is a pure function: the caller reads the live
//! environment, probes the filesystem, and spawns discovery commands, and
//! hands the results in as plain values.  Each decision made on those
//! values carries a verified contract.

pub mod build_opts;
pub mod jdk;
pub mod overrides;
pub mod platform;
pub mod scan;
pub mod sdk;
pub mod text;
pub mod version;

pub mod javac_version;

pub use build_opts::DebugInfo;
pub use javac_version::parse_javac_version_output;
pub use javac_version::javac_version_from_output;
pub use javac_version::JavacVersionError;
pub use jdk::java;
pub use jdk::javac;
pub use jdk::java_home;
pub use jdk::java_bin_path;
pub use jdk::javac_bin_path;
pub use jdk::java_source_version;
pub use jdk::java_target_version;
pub use overrides::env_override_path;
pub use overrides::env_override_value;
pub use overrides::path_override;
pub use platform::find_android_sdk;
pub use platform::java_discovery_path;
pub use platform::java_home_from_discovered;
pub use platform::parent_dir;
pub use platform::resolve_link_step;
pub use platform::HostPlatform;
pub use scan::find_latest_version;
pub use sdk::android_d8_jar;
pub use sdk::android_d8_jar_path;
pub use sdk::android_d8_jar_version;
pub use sdk::android_jar;
pub use sdk::android_jar_path;
pub use sdk::android_jar_version;
pub use sdk::android_sdk;
pub use version::env_android_platform_api_level;
