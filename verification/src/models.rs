//! Request bodies with their field rules, and the process configuration.

use vstd::prelude::*;
use vstd::string::*;

verus! {

/// What `validator::validate_email` answers for a text: whether it is an
/// e-mail address by the HTML5 rules.
pub uninterp spec fn email_is_valid(text: Seq<char>) -> bool;

/// What `str::parse::<u16>` reads from a text: the number it spells in
/// decimal, or `None` where it spells none below 65536.
pub uninterp spec fn port_parsed(text: Seq<char>) -> Option<u16>;

/// Calls `validator::validate_email`. Trusted: the answer is what
/// `email_is_valid` names.
#[verifier::external_body]
fn email_check(text: &str) -> (r: bool)
    ensures
        r == email_is_valid(text@),
{
    validator::validate_email(text)
}

/// Calls `str::parse::<u16>`. Trusted: the result is what `port_parsed`
/// names.
#[verifier::external_body]
fn parse_port(text: &str) -> (r: Option<u16>)
    ensures
        r == port_parsed(text@),
{
    text.parse::<u16>().ok()
}

/// The body of a registration request.
#[derive(Debug)]
pub struct CreateUserRequest {
    pub email: String,
    pub password: String,
    pub first_name: String,
    pub last_name: String,
    pub phone: Option<String>,
}

/// The fields of a registration request that break their rule.
#[derive(Clone, Copy, Debug, PartialEq, Eq, Structural)]
pub struct CreateUserFaults {
    /// The e-mail address is not valid.
    pub email: bool,
    /// The password has fewer than 6 characters.
    pub password: bool,
    /// The first name is empty.
    pub first_name: bool,
    /// The last name is empty.
    pub last_name: bool,
}

impl CreateUserRequest {
    /// The rules of a registration request, field by field.
    pub open spec fn faults(&self) -> CreateUserFaults {
        CreateUserFaults {
            email: !email_is_valid(self.email@),
            password: self.password@.len() < 6,
            first_name: self.first_name@.len() < 1,
            last_name: self.last_name@.len() < 1,
        }
    }

    /// Checks the request against its rules: `Ok` where every field keeps
    /// its rule, else the fields that do not.
    pub fn validate(&self) -> (r: Result<(), CreateUserFaults>)
        ensures
            match r {
                Ok(_) => self.faults() == (CreateUserFaults {
                    email: false,
                    password: false,
                    first_name: false,
                    last_name: false,
                }),
                Err(faults) => faults == self.faults() && (faults.email || faults.password
                    || faults.first_name || faults.last_name),
            },
    {
        let faults = CreateUserFaults {
            email: !email_check(self.email.as_str()),
            password: self.password.as_str().unicode_len() < 6,
            first_name: self.first_name.as_str().unicode_len() < 1,
            last_name: self.last_name.as_str().unicode_len() < 1,
        };
        if faults.email || faults.password || faults.first_name || faults.last_name {
            Err(faults)
        } else {
            Ok(())
        }
    }
}

/// The body of a login request.
#[derive(Debug)]
pub struct LoginRequest {
    pub email: String,
    pub password: String,
}

/// The one rule of a login request, broken.
#[derive(Clone, Copy, Debug, PartialEq, Eq, Structural)]
pub struct LoginFaults {
    /// The e-mail address is not valid.
    pub email: bool,
}

impl LoginRequest {
    /// Checks the request against its rule: the e-mail address must be
    /// valid. The password is not looked at.
    pub fn validate(&self) -> (r: Result<(), LoginFaults>)
        ensures
            email_is_valid(self.email@) ==> r is Ok,
            !email_is_valid(self.email@) ==> r == Err::<(), LoginFaults>(
                LoginFaults { email: true },
            ),
    {
        if email_check(self.email.as_str()) {
            Ok(())
        } else {
            Err(LoginFaults { email: true })
        }
    }
}

/// The body of a request that creates a category.
#[derive(Debug)]
pub struct CreateCategoryRequest {
    pub name: String,
    pub description: Option<String>,
    pub icon: Option<String>,
}

/// The one rule of a category request, broken.
#[derive(Clone, Copy, Debug, PartialEq, Eq, Structural)]
pub struct CreateCategoryFaults {
    /// The name is empty.
    pub name: bool,
}

impl CreateCategoryRequest {
    /// Checks the request against its rule: the name must not be empty.
    pub fn validate(&self) -> (r: Result<(), CreateCategoryFaults>)
        ensures
            self.name@.len() >= 1 ==> r is Ok,
            self.name@.len() < 1 ==> r == Err::<(), CreateCategoryFaults>(
                CreateCategoryFaults { name: true },
            ),
    {
        if self.name.as_str().unicode_len() < 1 {
            Err(CreateCategoryFaults { name: true })
        } else {
            Ok(())
        }
    }
}

/// The configuration of the process, fixed at startup.
#[derive(Clone, Debug)]
pub struct Config {
    pub database_url: String,
    pub jwt_secret: String,
    pub server_port: u16,
}

/// Why no configuration could be made.
#[derive(Clone, Copy, Debug, PartialEq, Eq, Structural)]
pub enum ConfigError {
    /// No database URL is set.
    MissingDatabaseUrl,
    /// The port is set, and is no number from 0 to 65535.
    InvalidPort,
}

/// The signing secret that stands in where none is configured. It is
/// public knowledge: a deployment must set its own.
pub open spec fn fallback_secret() -> Seq<char> {
    "your-secret-key"@
}

/// The port that stands in where none is configured.
pub const DEFAULT_PORT: u16 = 8080;

/// The signing secret to use: the configured one, or the fallback where
/// none is configured.
pub fn signing_secret(configured: Option<String>) -> (r: String)
    ensures
        r@ == (match configured {
            Some(secret) => secret@,
            None => fallback_secret(),
        }),
{
    match configured {
        Some(secret) => secret,
        None => String::from_str("your-secret-key"),
    }
}

impl Config {
    /// The configuration for the three settings as the environment holds
    /// them. The database URL is required. The signing secret falls back to
    /// `fallback_secret`, the port to `DEFAULT_PORT`; a port that is set
    /// must be a number.
    pub fn from_values(
        database_url: Option<String>,
        jwt_secret: Option<String>,
        port: Option<String>,
    ) -> (r: Result<Config, ConfigError>)
        ensures
            database_url is None ==> r == Err::<Config, ConfigError>(
                ConfigError::MissingDatabaseUrl,
            ),
            database_url is Some && port is Some && port_parsed(port->0@) is None ==> r == Err::<
                Config,
                ConfigError,
            >(ConfigError::InvalidPort),
            database_url is Some && (port is None || port_parsed(port->0@) is Some) ==> (r matches Ok(
                c,
            ) && c.database_url == database_url->0 && c.jwt_secret@ == (match jwt_secret {
                Some(s) => s@,
                None => fallback_secret(),
            }) && c.server_port == (match port {
                Some(p) => port_parsed(p@)->0,
                None => DEFAULT_PORT,
            })),
    {
        let database_url = match database_url {
            Some(url) => url,
            None => { return Err(ConfigError::MissingDatabaseUrl); },
        };
        let jwt_secret = signing_secret(jwt_secret);
        let server_port: u16 = match port {
            None => DEFAULT_PORT,
            Some(text) => match parse_port(text.as_str()) {
                Some(number) => number,
                None => { return Err(ConfigError::InvalidPort); },
            },
        };
        Ok(Config { database_url, jwt_secret, server_port })
    }
}

/// The fields of a package request that break their rule.
#[derive(Clone, Copy, Debug, PartialEq, Eq, Structural)]
pub struct PackageFaults {
    /// The title is empty.
    pub title: bool,
    /// The description has fewer than 10 characters.
    pub description: bool,
    /// The price is below 1.
    pub price: bool,
    /// The duration is below 1 day.
    pub duration_days: bool,
    /// The package takes fewer than 1 person.
    pub max_people: bool,
}

impl PackageFaults {
    /// Whether any field breaks its rule.
    pub open spec fn any(&self) -> bool {
        self.title || self.description || self.price || self.duration_days || self.max_people
    }
}

/// The rules of a package request, field by field.
pub open spec fn package_faults(
    title: Seq<char>,
    description: Seq<char>,
    price: i32,
    duration_days: i32,
    max_people: i32,
) -> PackageFaults {
    PackageFaults {
        title: title.len() < 1,
        description: description.len() < 10,
        price: price < 1,
        duration_days: duration_days < 1,
        max_people: max_people < 1,
    }
}

/// Checks the plain fields of a package request against their rules: `Ok`
/// where each keeps its rule, else the fields that do not.
pub fn validate_package(
    title: &str,
    description: &str,
    price: i32,
    duration_days: i32,
    max_people: i32,
) -> (r: Result<(), PackageFaults>)
    ensures
        match r {
            Ok(_) => !package_faults(title@, description@, price, duration_days, max_people).any(),
            Err(faults) => faults == package_faults(
                title@,
                description@,
                price,
                duration_days,
                max_people,
            ) && faults.any(),
        },
{
    let faults = PackageFaults {
        title: title.unicode_len() < 1,
        description: description.unicode_len() < 10,
        price: price < 1,
        duration_days: duration_days < 1,
        max_people: max_people < 1,
    };
    if faults.title || faults.description || faults.price || faults.duration_days
        || faults.max_people {
        Err(faults)
    } else {
        Ok(())
    }
}

/// The one rule of a booking request, broken.
#[derive(Clone, Copy, Debug, PartialEq, Eq, Structural)]
pub struct BookingFaults {
    /// The booking is for fewer than 1 person.
    pub number_of_people: bool,
}

/// Checks a booking request against its rule: it is for at least one
/// person.
pub fn validate_booking(number_of_people: i32) -> (r: Result<(), BookingFaults>)
    ensures
        number_of_people >= 1 ==> r is Ok,
        number_of_people < 1 ==> r == Err::<(), BookingFaults>(
            BookingFaults { number_of_people: true },
        ),
{
    if number_of_people < 1 {
        Err(BookingFaults { number_of_people: true })
    } else {
        Ok(())
    }
}

} // verus!
