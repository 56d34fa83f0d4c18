//! Commands of the kernel's control calls: a code and the words it works on.

use vstd::prelude::*;

verus! {

/// cmd and arg pair used for `rt_xxx_control` APIs
pub trait Command {
    /// The code that selects the operation.
    fn get_cmd(&self) -> i32;

    /// The words that the operation reads and fills.
    fn get_arg(&mut self) -> &mut [u32];
}

/// A command given by its bare code and argument words.
#[derive(Debug)]
pub struct RawCommand {
    cmd: i32,
    arg: Vec<u32>,
}

impl RawCommand {
    /// The command's code.
    pub closed spec fn code(&self) -> i32 {
        self.cmd
    }

    /// The command's argument words.
    pub closed spec fn words(&self) -> Seq<u32> {
        self.arg@
    }

    pub fn new(cmd: i32, arg: Vec<u32>) -> (command: Self)
        ensures
            command.code() == cmd,
            command.words() == arg@,
    {
        Self { cmd, arg }
    }
}

impl Command for RawCommand {
    fn get_cmd(&self) -> (cmd: i32)
        ensures
            cmd == self.code(),
    {
        self.cmd
    }

    fn get_arg(&mut self) -> (arg: &mut [u32])
        ensures
            arg@ == old(self).words(),
            final(arg)@ == final(self).words(),
            final(self).code() == old(self).code(),
    {
        self.arg.as_mut_slice()
    }
}

} // verus!
