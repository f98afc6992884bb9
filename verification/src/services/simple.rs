//! A service that only greets, to show how a service is swapped for another.

use vstd::prelude::*;

verus! {

pub const GREETING: &'static str = "Hello dependency injection";

pub trait SimpleService {
    fn get(&self) -> String;
}

#[derive(Clone, Copy, Debug)]
pub struct SimpleServiceImpl;

impl SimpleService for SimpleServiceImpl {
    fn get(&self) -> (greeting: String)
        ensures
            greeting@ == GREETING@,
    {
        GREETING.to_owned()
    }
}

} // verus!
