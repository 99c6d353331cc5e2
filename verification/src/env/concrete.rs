//! Making a configuration concrete: one value for every setting.

use vstd::prelude::*;
use super::lookup::{computes, MissingProfile};
use super::settings::{EmailSenderConfig, SysadminCreationConfig, TlsConfig};
use super::tree::{segments, TelescopeConfig};

verus! {

/// A concrete config found by searching the specified profile and its
/// parents for every setting, from the narrowest scope up.
#[derive(Debug)]
pub struct ConcreteConfig {
    pub tls_config: TlsConfig,
    pub log_level: String,
    pub bind_to: String,
    pub database_url: String,
    pub email_config: EmailSenderConfig,
    /// Sysadmin creation is not necessary to run the server.
    pub sysadmin_config: Option<SysadminCreationConfig>,
}

/// The settings that a server cannot run without, in the order in which
/// they are resolved.
#[derive(Debug, Clone, Copy, PartialEq, Eq, Structural)]
pub enum RequiredField {
    LogLevel,
    BindTo,
    DatabaseUrl,
    EmailConfig,
    TlsConfig,
}

/// Why no concrete config could be made.
#[derive(Debug)]
pub enum ConfigError {
    /// The selected profile does not exist.
    ProfilePathNotFound {
        /// The profile path that was asked for.
        attempted_path: Vec<String>,
        /// Its first segment that names no profile.
        missing_segment: String,
    },
    /// No scope on the path, the root included, sets a required setting.
    RequiredFieldUnresolved {
        /// The setting's key in the configuration document.
        field_name: String,
    },
}

/// Reads the log level that a scope itself sets.
pub open spec fn log_level_of() -> spec_fn(TelescopeConfig) -> Option<String> {
    |scope: TelescopeConfig| scope.log_level
}

/// Reads the bind address that a scope itself sets.
pub open spec fn bind_to_of() -> spec_fn(TelescopeConfig) -> Option<String> {
    |scope: TelescopeConfig| scope.bind_to
}

/// Reads the database URL that a scope itself sets.
pub open spec fn database_url_of() -> spec_fn(TelescopeConfig) -> Option<String> {
    |scope: TelescopeConfig| scope.database_url
}

/// Reads the email config that a scope itself sets.
pub open spec fn email_config_of() -> spec_fn(TelescopeConfig) -> Option<EmailSenderConfig> {
    |scope: TelescopeConfig| scope.email_config
}

/// Reads the sysadmin config that a scope itself sets.
pub open spec fn sysadmin_config_of() -> spec_fn(TelescopeConfig) -> Option<
    SysadminCreationConfig,
> {
    |scope: TelescopeConfig| scope.sysadmin_config
}

/// Reads the TLS config that a scope itself sets.
pub open spec fn tls_config_of() -> spec_fn(TelescopeConfig) -> Option<TlsConfig> {
    |scope: TelescopeConfig| scope.tls_config
}

/// Two outcomes of making a profile concrete say the same: the same config,
/// or the same failure with the same names in it.
pub open spec fn same_outcome(
    first: Result<ConcreteConfig, ConfigError>,
    second: Result<ConcreteConfig, ConfigError>,
) -> bool {
    match (first, second) {
        (Ok(a), Ok(b)) => a == b,
        (
            Err(ConfigError::ProfilePathNotFound { attempted_path: a, missing_segment: m }),
            Err(ConfigError::ProfilePathNotFound { attempted_path: b, missing_segment: n }),
        ) => segments(a@) == segments(b@) && m@ == n@,
        (
            Err(ConfigError::RequiredFieldUnresolved { field_name: a }),
            Err(ConfigError::RequiredFieldUnresolved { field_name: b }),
        ) => a@ == b@,
        _ => false,
    }
}

impl RequiredField {
    /// The setting's key in the configuration document.
    pub open spec fn key(self) -> Seq<char> {
        match self {
            RequiredField::LogLevel => "log_level"@,
            RequiredField::BindTo => "bind_to"@,
            RequiredField::DatabaseUrl => "database_url"@,
            RequiredField::EmailConfig => "email_config"@,
            RequiredField::TlsConfig => "tls_config"@,
        }
    }

    /// This setting is resolved before `other`.
    pub open spec fn precedes(self, other: RequiredField) -> bool {
        self.rank() < other.rank()
    }

    /// The setting's place in the order of resolution.
    pub open spec fn rank(self) -> int {
        match self {
            RequiredField::LogLevel => 0,
            RequiredField::BindTo => 1,
            RequiredField::DatabaseUrl => 2,
            RequiredField::EmailConfig => 3,
            RequiredField::TlsConfig => 4,
        }
    }

    /// What the setting is called in a message to the operator.
    pub open spec fn label(self) -> Seq<char> {
        match self {
            RequiredField::LogLevel => "log level"@,
            RequiredField::BindTo => "binding URL"@,
            RequiredField::DatabaseUrl => "database URL"@,
            RequiredField::EmailConfig => "email config"@,
            RequiredField::TlsConfig => "TLS config"@,
        }
    }

    /// What the setting is called in a message to the operator.
    pub fn description(&self) -> (text: &'static str)
        ensures
            text@ == self.label(),
    {
        match self {
            RequiredField::LogLevel => "log level",
            RequiredField::BindTo => "binding URL",
            RequiredField::DatabaseUrl => "database URL",
            RequiredField::EmailConfig => "email config",
            RequiredField::TlsConfig => "TLS config",
        }
    }

    /// The required setting whose key in the configuration document is
    /// `name`, if there is one.
    pub fn with_name(name: &String) -> (field: Option<RequiredField>)
        ensures
            match field {
                Some(field) => field.key() == name@,
                None => forall|field: RequiredField| field.key() != name@,
            },
    {
        if *name == RequiredField::LogLevel.name().to_owned() {
            Some(RequiredField::LogLevel)
        } else if *name == RequiredField::BindTo.name().to_owned() {
            Some(RequiredField::BindTo)
        } else if *name == RequiredField::DatabaseUrl.name().to_owned() {
            Some(RequiredField::DatabaseUrl)
        } else if *name == RequiredField::EmailConfig.name().to_owned() {
            Some(RequiredField::EmailConfig)
        } else if *name == RequiredField::TlsConfig.name().to_owned() {
            Some(RequiredField::TlsConfig)
        } else {
            None
        }
    }

    /// The setting's key in the configuration document.
    pub fn name(&self) -> (name: &'static str)
        ensures
            name@ == self.key(),
    {
        match self {
            RequiredField::LogLevel => "log_level",
            RequiredField::BindTo => "bind_to",
            RequiredField::DatabaseUrl => "database_url",
            RequiredField::EmailConfig => "email_config",
            RequiredField::TlsConfig => "tls_config",
        }
    }
}

impl TelescopeConfig {
    /// The log level that this scope itself sets.
    pub fn own_log_level(&self) -> (out: Option<String>)
        ensures
            out == self.log_level,
    {
        self.log_level.clone()
    }

    /// The bind address that this scope itself sets.
    pub fn own_bind_to(&self) -> (out: Option<String>)
        ensures
            out == self.bind_to,
    {
        self.bind_to.clone()
    }

    /// The database URL that this scope itself sets.
    pub fn own_database_url(&self) -> (out: Option<String>)
        ensures
            out == self.database_url,
    {
        self.database_url.clone()
    }

    /// The email config that this scope itself sets.
    pub fn own_email_config(&self) -> (out: Option<EmailSenderConfig>)
        ensures
            out == self.email_config,
    {
        self.email_config.clone()
    }

    /// The sysadmin config that this scope itself sets.
    pub fn own_sysadmin_config(&self) -> (out: Option<SysadminCreationConfig>)
        ensures
            out == self.sysadmin_config,
    {
        self.sysadmin_config.clone()
    }

    /// The TLS config that this scope itself sets.
    pub fn own_tls_config(&self) -> (out: Option<TlsConfig>)
        ensures
            out == self.tls_config,
    {
        self.tls_config.clone()
    }

    /// Some scope on `path` sets the required setting `field`.
    pub open spec fn resolves(self, path: Seq<Seq<char>>, field: RequiredField) -> bool {
        match field {
            RequiredField::LogLevel => self.resolve(path, log_level_of()) is Some,
            RequiredField::BindTo => self.resolve(path, bind_to_of()) is Some,
            RequiredField::DatabaseUrl => self.resolve(path, database_url_of()) is Some,
            RequiredField::EmailConfig => self.resolve(path, email_config_of()) is Some,
            RequiredField::TlsConfig => self.resolve(path, tls_config_of()) is Some,
        }
    }

    /// The first required setting, in the order in which they are resolved,
    /// that no scope on `path` sets.
    pub open spec fn first_unresolved(self, path: Seq<Seq<char>>) -> Option<RequiredField> {
        if !self.resolves(path, RequiredField::LogLevel) {
            Some(RequiredField::LogLevel)
        } else if !self.resolves(path, RequiredField::BindTo) {
            Some(RequiredField::BindTo)
        } else if !self.resolves(path, RequiredField::DatabaseUrl) {
            Some(RequiredField::DatabaseUrl)
        } else if !self.resolves(path, RequiredField::EmailConfig) {
            Some(RequiredField::EmailConfig)
        } else if !self.resolves(path, RequiredField::TlsConfig) {
            Some(RequiredField::TlsConfig)
        } else {
            None
        }
    }

    /// `made` is the outcome of making the profile at `path` concrete.
    pub open spec fn makes(
        self,
        path: Seq<Seq<char>>,
        made: Result<ConcreteConfig, ConfigError>,
    ) -> bool {
        match made {
            Ok(config) => {
                &&& self.has_path(path)
                &&& self.first_unresolved(path) is None
                &&& Some(config.log_level) == self.resolve(path, log_level_of())
                &&& Some(config.bind_to) == self.resolve(path, bind_to_of())
                &&& Some(config.database_url) == self.resolve(path, database_url_of())
                &&& Some(config.email_config) == self.resolve(path, email_config_of())
                &&& Some(config.tls_config) == self.resolve(path, tls_config_of())
                &&& config.sysadmin_config == self.resolve(path, sysadmin_config_of())
            },
            Err(ConfigError::ProfilePathNotFound { attempted_path, missing_segment }) => {
                &&& segments(attempted_path@) == path
                &&& exists|depth: int| #[trigger]
                    self.breaks_at(path, depth) && missing_segment@ == path[depth]
            },
            Err(ConfigError::RequiredFieldUnresolved { field_name }) => {
                &&& self.has_path(path)
                &&& self.first_unresolved(path) matches Some(field)
                &&& field_name@ == field.key()
            },
        }
    }

    /// Makes the profile at `profile` concrete by reverse searching the
    /// profiles on its path.
    ///
    /// The path is checked first; then the required settings are resolved in
    /// the order log level, bind address, database URL, email config, TLS
    /// config, and the first that no scope on the path sets is reported. The
    /// sysadmin config may stay unset.
    pub fn make_concrete(&self, profile: Vec<String>) -> (made: Result<
        ConcreteConfig,
        ConfigError,
    >)
        ensures
            self.makes(segments(profile@), made),
            made is Ok <==> self.has_path(segments(profile@)) && self.first_unresolved(
                segments(profile@),
            ) is None,
    {
        let ghost path = segments(profile@);
        match self.find_profile(profile.as_slice()) {
            Ok(_) => {},
            Err(missing) => {
                let MissingProfile { consumed, missing_segment } = missing;
                return Err(
                    ConfigError::ProfilePathNotFound { attempted_path: profile, missing_segment },
                );
            },
        }
        proof {
            assert(computes(TelescopeConfig::own_log_level, log_level_of()));
            assert(computes(TelescopeConfig::own_bind_to, bind_to_of()));
            assert(computes(TelescopeConfig::own_database_url, database_url_of()));
            assert(computes(TelescopeConfig::own_email_config, email_config_of()));
            assert(computes(TelescopeConfig::own_tls_config, tls_config_of()));
            assert(computes(TelescopeConfig::own_sysadmin_config, sysadmin_config_of()));
        }
        let log_level = match self.reverse_lookup(
            profile.as_slice(),
            TelescopeConfig::own_log_level,
        ) {
            Some(value) => value,
            None => {
                return Err(unresolved(RequiredField::LogLevel));
            },
        };
        let bind_to = match self.reverse_lookup(
            profile.as_slice(),
            TelescopeConfig::own_bind_to,
        ) {
            Some(value) => value,
            None => {
                return Err(unresolved(RequiredField::BindTo));
            },
        };
        let database_url = match self.reverse_lookup(
            profile.as_slice(),
            TelescopeConfig::own_database_url,
        ) {
            Some(value) => value,
            None => {
                return Err(unresolved(RequiredField::DatabaseUrl));
            },
        };
        let email_config = match self.reverse_lookup(
            profile.as_slice(),
            TelescopeConfig::own_email_config,
        ) {
            Some(value) => value,
            None => {
                return Err(unresolved(RequiredField::EmailConfig));
            },
        };
        let tls_config = match self.reverse_lookup(
            profile.as_slice(),
            TelescopeConfig::own_tls_config,
        ) {
            Some(value) => value,
            None => {
                return Err(unresolved(RequiredField::TlsConfig));
            },
        };
        let sysadmin_config = self.reverse_lookup(
            profile.as_slice(),
            TelescopeConfig::own_sysadmin_config,
        );
        Ok(
            ConcreteConfig {
                tls_config,
                log_level,
                bind_to,
                database_url,
                email_config,
                sysadmin_config,
            },
        )
    }
    /// No scope on `path` sets the required setting `field`.
    pub open spec fn leaves_unset(self, path: Seq<Seq<char>>, field: RequiredField) -> bool {
        forall|depth: int|
            0 <= depth <= path.len() ==> !(#[trigger] self.scope_at(path, depth)).sets(field)
    }

    /// This scope itself sets the required setting `field`.
    pub open spec fn sets(self, field: RequiredField) -> bool {
        match field {
            RequiredField::LogLevel => self.log_level is Some,
            RequiredField::BindTo => self.bind_to is Some,
            RequiredField::DatabaseUrl => self.database_url is Some,
            RequiredField::EmailConfig => self.email_config is Some,
            RequiredField::TlsConfig => self.tls_config is Some,
        }
    }

    /// A required setting is resolved exactly where some scope on the path
    /// sets it.
    pub proof fn law_resolved_means_set(self, path: Seq<Seq<char>>, field: RequiredField)
        requires
            self.has_path(path),
        ensures
            self.resolves(path, field) <==> !self.leaves_unset(path, field),
    {
        match field {
            RequiredField::LogLevel => self.law_unresolved_means_unset(path, log_level_of()),
            RequiredField::BindTo => self.law_unresolved_means_unset(path, bind_to_of()),
            RequiredField::DatabaseUrl => self.law_unresolved_means_unset(path, database_url_of()),
            RequiredField::EmailConfig => self.law_unresolved_means_unset(path, email_config_of()),
            RequiredField::TlsConfig => self.law_unresolved_means_unset(path, tls_config_of()),
        }
        if self.leaves_unset(path, field) {
            assert forall|depth: int| 0 <= depth <= path.len() implies !(#[trigger] self.scope_at(
                path,
                depth,
            )).sets(field) by {}
        }
    }

    /// A required setting that no scope on a valid path sets makes the
    /// assembly fail, and the failure names a required setting that is set
    /// nowhere on the path: this one, unless one that is resolved before it
    /// is unset too.
    pub proof fn law_unset_required_field_fails(
        self,
        path: Seq<Seq<char>>,
        field: RequiredField,
        made: Result<ConcreteConfig, ConfigError>,
    )
        requires
            self.makes(path, made),
            self.has_path(path),
            self.leaves_unset(path, field),
        ensures
            made matches Err(ConfigError::RequiredFieldUnresolved { field_name }) && exists|
                named: RequiredField,
            |
                #![trigger self.leaves_unset(path, named)]
                self.leaves_unset(path, named) && field_name@ == named.key() && (named == field
                    || named.precedes(field)),
            (forall|earlier: RequiredField| #[trigger]
                earlier.precedes(field) ==> self.resolves(path, earlier)) ==> made->Err_0->field_name@
                == field.key(),
    {
        self.law_resolved_means_set(path, field);
        if made is Err {
            if made->Err_0 is ProfilePathNotFound {
                let depth = choose|depth: int| self.breaks_at(path, depth);
                self.lemma_break_is_final(path, depth);
            }
        }
        let named = self.first_unresolved(path).unwrap();
        self.law_resolved_means_set(path, named);
        if named.precedes(field) {
            assert(!self.resolves(path, named));
        }
    }

    /// Making a profile concrete has one outcome: two outcomes for the same
    /// tree and path are the same config, or the same failure.
    pub proof fn law_outcome_is_determined(
        self,
        path: Seq<Seq<char>>,
        first: Result<ConcreteConfig, ConfigError>,
        second: Result<ConcreteConfig, ConfigError>,
    )
        requires
            self.makes(path, first),
            self.makes(path, second),
        ensures
            same_outcome(first, second),
    {
        if first is Err && first->Err_0 is ProfilePathNotFound {
            let depth = choose|depth: int| #[trigger]
                self.breaks_at(path, depth) && first->Err_0->missing_segment@ == path[depth];
            self.lemma_break_is_final(path, depth);
            let other = choose|other: int| #[trigger]
                self.breaks_at(path, other) && second->Err_0->missing_segment@ == path[other];
            self.law_break_is_unique(path, depth, other);
        } else if second is Err && second->Err_0 is ProfilePathNotFound {
            let depth = choose|depth: int| #[trigger]
                self.breaks_at(path, depth) && second->Err_0->missing_segment@ == path[depth];
            self.lemma_break_is_final(path, depth);
        }
    }

}

/// The failure that reports `field` as set nowhere.
fn unresolved(field: RequiredField) -> (error: ConfigError)
    ensures
        error matches ConfigError::RequiredFieldUnresolved { field_name } && field_name@
            == field.key(),
{
    ConfigError::RequiredFieldUnresolved { field_name: field.name().to_owned() }
}

} // verus!
