//! The decisions of configuration loading: which file is read, and whether
//! what was read is accepted.

use crate::config::error::ConfigError;
use crate::config::schema::{config_fault, Config};
use std::sync::Arc;
use vstd::prelude::*;

verus! {

/// The file to layer over the defaults: the file named in the environment
/// if one is named and exists, else the file at `path`; none if the chosen
/// file does not exist.
pub open spec fn source_of(
    env_path: Option<Seq<char>>,
    env_path_exists: bool,
    path: Seq<char>,
    path_exists: bool,
) -> Option<Seq<char>> {
    if env_path is Some && env_path_exists {
        env_path
    } else if path_exists {
        Some(path)
    } else {
        None
    }
}

/// The characters of a text that may be absent.
pub open spec fn text_of(s: Option<&str>) -> Option<Seq<char>> {
    match s {
        Some(t) => Some(t@),
        None => None,
    }
}

/// Chooses the file to layer over the defaults.
pub fn config_source(
    env_path: Option<&str>,
    env_path_exists: bool,
    path: &str,
    path_exists: bool,
) -> (r: Option<String>)
    ensures
        r is Some <==> source_of(text_of(env_path), env_path_exists, path@, path_exists) is Some,
        r matches Some(p) ==> Some(p@) == source_of(
            text_of(env_path),
            env_path_exists,
            path@,
            path_exists,
        ),
{
    match env_path {
        Some(p) => {
            if env_path_exists {
                return Some(p.to_owned());
            }
        },
        None => {},
    }
    if path_exists {
        Some(path.to_owned())
    } else {
        None
    }
}

/// Accepts the configuration read from defaults, file and environment if
/// it is valid, and hands it on unchanged.
pub fn load_from_file(candidate: Config) -> (r: Result<Config, ConfigError>)
    ensures
        r is Ok <==> config_fault(&candidate) is None,
        r matches Ok(c) ==> c == candidate,
        r matches Err(e) ==> config_fault(&candidate) == Some(e@),
{
    match candidate.validate() {
        Ok(_) => Ok(candidate),
        Err(e) => Err(e),
    }
}

/// As [`load_from_file`], with the configuration ready to be shared.
pub fn load_arc_from_file(candidate: Config) -> (r: Result<Arc<Config>, ConfigError>)
    ensures
        r is Ok <==> config_fault(&candidate) is None,
        r matches Ok(c) ==> *c == candidate,
        r matches Err(e) ==> config_fault(&candidate) == Some(e@),
{
    match load_from_file(candidate) {
        Ok(c) => Ok(Arc::new(c)),
        Err(e) => Err(e),
    }
}

} // verus!
