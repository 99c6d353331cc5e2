//! The structured settings that a scope can hold.

use vstd::prelude::*;

verus! {

/// The TLS credentials of a given configuration.
#[derive(Debug)]
pub struct TlsConfig {
    /// Path of the TLS certificate chain file.
    pub cert_file: String,
    /// Path of the TLS private key file.
    pub private_key_file: String,
}

impl Clone for TlsConfig {
    fn clone(&self) -> (copy: Self)
        ensures
            copy == *self,
    {
        TlsConfig {
            cert_file: self.cert_file.clone(),
            private_key_file: self.private_key_file.clone(),
        }
    }
}

/// Configuration of the SMTP client.
#[derive(Debug)]
pub struct SmtpConfig {
    /// The port of the SMTP server.
    pub port: u16,
    /// The username of the email account on the server.
    pub username: String,
    /// The password used to log in to the email account.
    pub password: String,
    /// The email server.
    pub host: String,
}

impl Clone for SmtpConfig {
    fn clone(&self) -> (copy: Self)
        ensures
            copy == *self,
    {
        SmtpConfig {
            port: self.port,
            username: self.username.clone(),
            password: self.password.clone(),
            host: self.host.clone(),
        }
    }
}

/// The configuration used to create a sysadmin account.
#[derive(Debug)]
pub struct SysadminCreationConfig {
    /// Should a sysadmin account be created and added to the database on start.
    pub create: bool,
    /// The email to create the sysadmin account with.
    pub email: String,
    /// The password to create the sysadmin account with.
    pub password: String,
}

impl Clone for SysadminCreationConfig {
    fn clone(&self) -> (copy: Self)
        ensures
            copy == *self,
    {
        SysadminCreationConfig {
            create: self.create,
            email: self.email.clone(),
            password: self.password.clone(),
        }
    }
}

/// Configuration of email senders.
#[derive(Debug)]
pub struct EmailSenderConfig {
    /// Name of the email sender.
    pub name: Option<String>,
    /// The email address of the sender.
    pub address: String,
    /// Emails generated by the server are printed in the terminal.
    pub stub: bool,
    /// Emails generated by the server are saved to files at the given path.
    pub file: Option<String>,
    /// Emails generated by the server are sent to users over SMTP.
    pub smtp: Option<SmtpConfig>,
}

impl Clone for EmailSenderConfig {
    fn clone(&self) -> (copy: Self)
        ensures
            copy == *self,
    {
        EmailSenderConfig {
            name: self.name.clone(),
            address: self.address.clone(),
            stub: self.stub,
            file: self.file.clone(),
            smtp: self.smtp.clone(),
        }
    }
}

} // verus!
