use vstd::prelude::*;

verus! {

/// Where the server is to be found (`host:port`).
pub struct Config {
    host: String,
}

impl View for Config {
    type V = Seq<char>;

    closed spec fn view(&self) -> Seq<char> {
        self.host@
    }
}

impl Config {
    /// Builds the configuration from the value of the `MPMP_HOST`
    /// environment variable, `None` where it is not set (or not unicode).
    pub fn new(mpmp_host: Option<String>) -> (r: Result<Self, &'static str>)
        ensures
            mpmp_host is None <==> r is Err,
            r matches Err(e) ==> e == "Failed to obtain MPMP_HOST environment var",
            r matches Ok(c) ==> c@ == mpmp_host->Some_0@,
    {
        match mpmp_host {
            Some(host) => Ok(Config { host }),
            None => Err("Failed to obtain MPMP_HOST environment var"),
        }
    }

    pub fn get_host(&self) -> (r: &str)
        ensures
            r@ == self@,
    {
        self.host.as_str()
    }
}

/// The address the server listens on: the configured host, or
/// `0.0.0.0:8015` where the configuration could not be had.
pub fn listen_host<'a>(config: &'a Result<Config, &'static str>) -> (r: &'a str)
    ensures
        config matches Ok(c) ==> r@ == c@,
        config is Err ==> r@ == "0.0.0.0:8015"@,
{
    match config {
        Ok(c) => c.get_host(),
        Err(_) => "0.0.0.0:8015",
    }
}

} // verus!
