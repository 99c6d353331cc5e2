//! The configuration document as a tree of scopes.

use vstd::prelude::*;
use super::settings::{EmailSenderConfig, SysadminCreationConfig, TlsConfig};
use crate::name_map::NameMap;

verus! {

/// The named profiles of one scope: a finite map from profile name to the
/// scope that the profile holds. No two profiles of a scope share a name.
pub type Profiles = NameMap<TelescopeConfig>;

/// One scope of the configuration document: the document root, or a profile
/// anywhere below it. Every setting is present or absent on its own.
#[derive(Debug)]
pub struct TelescopeConfig {
    /// The log level filter.
    pub log_level: Option<String>,
    /// The address to bind the running server to.
    pub bind_to: Option<String>,
    /// The URL the database is running at.
    pub database_url: Option<String>,
    /// The configuration of email senders.
    pub email_config: Option<EmailSenderConfig>,
    /// The configuration of sysadmin creation.
    pub sysadmin_config: Option<SysadminCreationConfig>,
    /// The TLS credential config.
    pub tls_config: Option<TlsConfig>,
    /// Profiles of this scope. They override the values defined here and
    /// can have profiles of their own.
    pub profile: Option<Profiles>,
}

impl TelescopeConfig {
    /// A scope that sets nothing and has no profiles.
    pub fn new() -> (scope: Self)
        ensures
            scope.is_blank(),
    {
        TelescopeConfig {
            log_level: None,
            bind_to: None,
            database_url: None,
            email_config: None,
            sysadmin_config: None,
            tls_config: None,
            profile: None,
        }
    }

    /// This scope with the profile `name` added, or put in the place of the
    /// one of that name. The scope's own settings stay as they are.
    pub fn with_profile(self, name: String, config: TelescopeConfig) -> (scope: Self)
        ensures
            scope.profiles() == self.profiles().insert(name@, config),
            scope.same_settings(self),
    {
        TelescopeConfig {
            log_level: self.log_level,
            bind_to: self.bind_to,
            database_url: self.database_url,
            email_config: self.email_config,
            sysadmin_config: self.sysadmin_config,
            tls_config: self.tls_config,
            profile: Some(
                match self.profile {
                    Some(profiles) => profiles.with(name, config),
                    None => NameMap::new().with(name, config),
                },
            ),
        }
    }

    /// Nothing is set and there is no profile.
    pub open spec fn is_blank(self) -> bool {
        &&& self.log_level is None
        &&& self.bind_to is None
        &&& self.database_url is None
        &&& self.email_config is None
        &&& self.sysadmin_config is None
        &&& self.tls_config is None
        &&& self.profile is None
    }

    /// Both scopes set the same settings to the same values.
    pub open spec fn same_settings(self, other: TelescopeConfig) -> bool {
        &&& self.log_level == other.log_level
        &&& self.bind_to == other.bind_to
        &&& self.database_url == other.database_url
        &&& self.email_config == other.email_config
        &&& self.sysadmin_config == other.sysadmin_config
        &&& self.tls_config == other.tls_config
    }

    /// The profiles of this scope, by name. A scope without the field has
    /// none.
    pub open spec fn profiles(self) -> Map<Seq<char>, TelescopeConfig> {
        match self.profile {
            Some(profiles) => profiles@,
            None => Map::empty(),
        }
    }

    /// The scope of this scope's profile `name`, if it has one.
    pub open spec fn child(self, name: Seq<char>) -> Option<TelescopeConfig> {
        if self.profiles().dom().contains(name) {
            Some(self.profiles()[name])
        } else {
            None
        }
    }

    /// The scope of the profile called `name`.
    pub fn get_profile(&self, name: &String) -> (found: Option<&TelescopeConfig>)
        ensures
            found == match self.child(name@) {
                Some(scope) => Some(&scope),
                None => None,
            },
    {
        match &self.profile {
            Some(profiles) => profiles.get(name),
            None => None,
        }
    }

    /// The scope that `path` leads to from this one, profile by profile;
    /// `None` where a segment names no profile of the scope reached so far.
    /// The empty path leads to this scope itself.
    pub open spec fn descend(self, path: Seq<Seq<char>>) -> Option<TelescopeConfig>
        decreases path.len(),
    {
        if path.len() == 0 {
            Some(self)
        } else {
            match self.descend(path.drop_last()) {
                Some(scope) => scope.child(path.last()),
                None => None,
            }
        }
    }

    /// Every segment of `path` names a profile of the scope before it.
    pub open spec fn has_path(self, path: Seq<Seq<char>>) -> bool {
        self.descend(path) is Some
    }

    /// The scope `depth` segments down `path`; depth 0 is this scope.
    pub open spec fn scope_at(self, path: Seq<Seq<char>>, depth: int) -> TelescopeConfig {
        self.descend(path.take(depth)).unwrap()
    }

    /// The scopes that `path` passes through, this scope first and the
    /// selected profile last.
    pub open spec fn scopes_on(self, path: Seq<Seq<char>>) -> Seq<TelescopeConfig> {
        Seq::new(path.len() + 1, |depth: int| self.scope_at(path, depth))
    }

    /// A path that leads somewhere leads somewhere at every depth.
    pub proof fn lemma_prefixes_exist(self, path: Seq<Seq<char>>, depth: int)
        requires
            self.has_path(path),
            0 <= depth <= path.len(),
        ensures
            self.has_path(path.take(depth)),
        decreases path.len() - depth,
    {
        if depth == path.len() {
            assert(path.take(depth) =~= path);
        } else {
            self.lemma_prefixes_exist(path, depth + 1);
            assert(path.take(depth + 1).drop_last() =~= path.take(depth));
        }
    }
}

impl Default for TelescopeConfig {
    fn default() -> (scope: Self)
        ensures
            scope.is_blank(),
    {
        TelescopeConfig::new()
    }
}

/// The names that a profile path holds, segment by segment.
pub open spec fn segments(path: Seq<String>) -> Seq<Seq<char>> {
    Seq::new(path.len(), |i: int| path[i]@)
}

} // verus!
