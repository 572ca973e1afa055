//! The credential hasher's configuration: a server-wide secret key mixed into
//! every hash, and optional memory and iteration costs.  The memory-hard
//! hashing engine itself runs outside the verified core, which decides on its
//! outcome; these accessors hand it its configuration.

use vstd::prelude::*;

verus! {

pub struct Argon {
    secret: String,
    memory_size: Option<u32>,
    iterations: Option<u32>,
}

pub struct ArgonView {
    pub secret: Seq<char>,
    pub memory_size: Option<u32>,
    pub iterations: Option<u32>,
}

impl View for Argon {
    type V = ArgonView;

    closed spec fn view(&self) -> ArgonView {
        ArgonView {
            secret: self.secret@,
            memory_size: self.memory_size,
            iterations: self.iterations,
        }
    }
}

impl Argon {
    pub fn new(secret: &str, memory_size: Option<u32>, iterations: Option<u32>) -> (r: Self)
        ensures
            r@.secret == secret@,
            r@.memory_size == memory_size,
            r@.iterations == iterations,
    {
        Argon { secret: secret.to_owned(), memory_size, iterations }
    }

    /// The secret key the hashing engine must mix into every hash.
    pub fn secret(&self) -> (r: &str)
        ensures
            r@ == self@.secret,
    {
        self.secret.as_str()
    }

    /// The configured memory cost, where the engine's default is overridden.
    pub fn memory_size(&self) -> (r: Option<u32>)
        ensures
            r == self@.memory_size,
    {
        self.memory_size
    }

    /// The configured iteration cost, where the engine's default is
    /// overridden.
    pub fn iterations(&self) -> (r: Option<u32>)
        ensures
            r == self@.iterations,
    {
        self.iterations
    }
}

} // verus!
