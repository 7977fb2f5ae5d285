//! The frame orchestrator: gives each component its turn and routes the
//! messages it produced by category.
use vstd::prelude::*;

use crate::chip8::Chip8;
use crate::isa::{cycle, handle_all, initial_state, EmulationError};
use crate::command::{Command, GameCommand};
use crate::memory::{last_snapshot, Memory};
use crate::router::Router;

verus! {

/// Where the orchestrator delivers a message.
#[derive(Clone, Copy, Debug, PartialEq, Eq, Structural)]
pub enum Destination {
    /// The execution engine.
    Engine,
    /// The host adapter: display, audio and keyboard.
    Host,
    /// The memory store.
    MemoryStore,
    /// The orchestrator itself: the run ends.
    Stop,
}

/// The routing rule. Messages that the memory store and the host adapter
/// produce (`outbound` false) go to the engine; messages that the engine
/// produces go to the host adapter (display, audio, key) or the memory store
/// (memory). An exit request, from anywhere, stops the run.
pub open spec fn destination(c: Command, outbound: bool) -> Destination {
    match c {
        Command::GameState(GameCommand::Exit) => Destination::Stop,
        Command::Memory(_) => if outbound {
            Destination::MemoryStore
        } else {
            Destination::Engine
        },
        _ => if outbound {
            Destination::Host
        } else {
            Destination::Engine
        },
    }
}

/// The messages of `cs` that the routing rule sends to `d`, in order.
pub open spec fn routed(cs: Seq<Command>, outbound: bool, d: Destination) -> Seq<Command>
    decreases cs.len(),
{
    if cs.len() == 0 {
        Seq::empty()
    } else if destination(cs.last(), outbound) == d {
        routed(cs.drop_last(), outbound, d).push(cs.last())
    } else {
        routed(cs.drop_last(), outbound, d)
    }
}

/// Applies the routing rule to one message.
pub fn destination_of(c: &Command, outbound: bool) -> (r: Destination)
    ensures
        r == destination(*c, outbound),
{
    match c {
        Command::GameState(GameCommand::Exit) => Destination::Stop,
        Command::Memory(_) => if outbound {
            Destination::MemoryStore
        } else {
            Destination::Engine
        },
        _ => if outbound {
            Destination::Host
        } else {
            Destination::Engine
        },
    }
}

/// The frame loop's state: the memory store, the engine, the host adapter's
/// queues, the bridge queues through which every message passes, and whether
/// the run goes on.
pub struct Chip8Emulator {
    memory: Memory,
    chip8: Chip8,
    io_commands: Router<Command>,
    router_bridge: Router<Command>,
    running_flag: bool,
}

impl Chip8Emulator {
    /// The memory store.
    pub closed spec fn memory(&self) -> Memory {
        self.memory
    }

    /// The engine.
    pub closed spec fn engine(&self) -> Chip8 {
        self.chip8
    }

    /// The host adapter's queues.
    pub closed spec fn host(&self) -> Router<Command> {
        self.io_commands
    }

    /// The bridge queues.
    pub closed spec fn bridge(&self) -> Router<Command> {
        self.router_bridge
    }

    /// Whether the run goes on.
    pub closed spec fn running(&self) -> bool {
        self.running_flag
    }

    /// Every component and queue of the frame loop is in a state it accepts.
    pub open spec fn wf(&self) -> bool {
        self.engine()@.wf()
    }

    /// A running loop over a fresh engine and zero-filled memory, with every
    /// queue empty.
    pub fn new() -> (r: Self)
        ensures
            r.wf(),
            r.running(),
            r.engine()@ == initial_state(),
            r.memory()@ == Seq::new(4096, |a: int| 0u8),
            r.engine().inbound() == Seq::<Command>::empty(),
            r.engine().outbound() == Seq::<Command>::empty(),
            r.memory().inbound() == Seq::<Command>::empty(),
            r.memory().outbound() == Seq::<Command>::empty(),
            r.host().inbound() == Seq::<Command>::empty(),
            r.host().outbound() == Seq::<Command>::empty(),
            r.bridge().inbound() == Seq::<Command>::empty(),
            r.bridge().outbound() == Seq::<Command>::empty(),
    {
        Chip8Emulator {
            memory: Memory::new(),
            chip8: Chip8::new(),
            io_commands: Router::new(),
            router_bridge: Router::new(),
            running_flag: true,
        }
    }

    /// Whether the run goes on.
    pub fn is_running(&self) -> (r: bool)
        ensures
            r == self.running(),
    {
        self.running_flag
    }

    /// Ends the run after this frame.
    pub fn exit_game(&mut self)
        ensures
            !final(self).running(),
            final(self).memory() == old(self).memory(),
            final(self).engine() == old(self).engine(),
            final(self).host() == old(self).host(),
            final(self).bridge() == old(self).bridge(),
    {
        self.running_flag = false
    }

    /// The engine, for inspection.
    pub fn chip8(&self) -> (r: &Chip8)
        ensures
            *r == self.engine(),
    {
        &self.chip8
    }

    /// The memory store, for loading the font table and the program.
    pub fn get_memory(&mut self) -> (r: &mut Memory)
        ensures
            *r == old(self).memory(),
            final(self).memory() == *final(r),
            final(self).engine() == old(self).engine(),
            final(self).host() == old(self).host(),
            final(self).bridge() == old(self).bridge(),
            final(self).running() == old(self).running(),
    {
        &mut self.memory
    }

    /// The host adapter's queues: the adapter drains their inbound side and
    /// publishes key events and exit requests on their outbound side.
    pub fn get_io_commands(&mut self) -> (r: &mut Router<Command>)
        ensures
            *r == old(self).host(),
            final(self).host() == *final(r),
            final(self).memory() == old(self).memory(),
            final(self).engine() == old(self).engine(),
            final(self).bridge() == old(self).bridge(),
            final(self).running() == old(self).running(),
    {
        &mut self.io_commands
    }

    /// Empties both bridge queues, delivering each message by the routing
    /// rule: the bridge's inbound messages to the engine, its outbound
    /// messages to the host adapter or the memory store; an exit request
    /// ends the run.
    pub fn route_to_components(&mut self)
        ensures
            final(self).bridge().inbound() == Seq::<Command>::empty(),
            final(self).bridge().outbound() == Seq::<Command>::empty(),
            final(self).engine()@ == old(self).engine()@,
            final(self).engine().inbound() == old(self).engine().inbound() + routed(
                old(self).bridge().inbound(),
                false,
                Destination::Engine,
            ),
            final(self).engine().outbound() == old(self).engine().outbound(),
            final(self).host().inbound() == old(self).host().inbound() + routed(
                old(self).bridge().outbound(),
                true,
                Destination::Host,
            ),
            final(self).host().outbound() == old(self).host().outbound(),
            final(self).memory()@ == old(self).memory()@,
            final(self).memory().inbound() == old(self).memory().inbound() + routed(
                old(self).bridge().outbound(),
                true,
                Destination::MemoryStore,
            ),
            final(self).memory().outbound() == old(self).memory().outbound(),
            final(self).running() == (old(self).running()
                && routed(old(self).bridge().inbound(), false, Destination::Stop).len() == 0
                && routed(old(self).bridge().outbound(), true, Destination::Stop).len() == 0),
    {
        let incoming = self.router_bridge.consume_all_inbound();
        let mut k: usize = 0;
        while k < incoming.len()
            invariant
                k <= incoming@.len(),
                incoming@ == old(self).bridge().inbound(),
                self.router_bridge.inbound() == Seq::<Command>::empty(),
                self.router_bridge.outbound() == old(self).bridge().outbound(),
                self.chip8@ == old(self).engine()@,
                self.chip8.inbound() == old(self).engine().inbound() + routed(
                    incoming@.take(k as int),
                    false,
                    Destination::Engine,
                ),
                self.chip8.outbound() == old(self).engine().outbound(),
                self.io_commands == old(self).host(),
                self.memory == old(self).memory(),
                self.running_flag == (old(self).running() && routed(incoming@.take(k as int), false, Destination::Stop).len() == 0),
            decreases incoming@.len() - k,
        {
            let c: Command = incoming[k];
            assert(incoming@.take(k + 1).drop_last() =~= incoming@.take(k as int));
            match destination_of(&c, false) {
                Destination::Stop => self.exit_game(),
                _ => self.chip8.get_commands().send_inbound(c),
            }
            k = k + 1;
        }
        assert(incoming@.take(k as int) =~= incoming@);

        let ghost mid_running = self.running_flag;
        let outgoing = self.router_bridge.consume_all_outbound();
        let mut k: usize = 0;
        while k < outgoing.len()
            invariant
                k <= outgoing@.len(),
                outgoing@ == old(self).bridge().outbound(),
                self.router_bridge.inbound() == Seq::<Command>::empty(),
                self.router_bridge.outbound() == Seq::<Command>::empty(),
                self.chip8@ == old(self).engine()@,
                self.chip8.inbound() == old(self).engine().inbound() + routed(
                    old(self).bridge().inbound(),
                    false,
                    Destination::Engine,
                ),
                self.chip8.outbound() == old(self).engine().outbound(),
                self.io_commands.inbound() == old(self).host().inbound() + routed(
                    outgoing@.take(k as int),
                    true,
                    Destination::Host,
                ),
                self.io_commands.outbound() == old(self).host().outbound(),
                self.memory@ == old(self).memory()@,
                self.memory.inbound() == old(self).memory().inbound() + routed(
                    outgoing@.take(k as int),
                    true,
                    Destination::MemoryStore,
                ),
                self.memory.outbound() == old(self).memory().outbound(),
                self.running_flag == (mid_running && routed(outgoing@.take(k as int), true, Destination::Stop).len() == 0),
                mid_running == (old(self).running() && routed(old(self).bridge().inbound(), false, Destination::Stop).len() == 0),
            decreases outgoing@.len() - k,
        {
            let c: Command = outgoing[k];
            assert(outgoing@.take(k + 1).drop_last() =~= outgoing@.take(k as int));
            match destination_of(&c, true) {
                Destination::Stop => self.exit_game(),
                Destination::MemoryStore => self.memory.get_commands().send_inbound(c),
                _ => self.io_commands.send_inbound(c),
            }
            k = k + 1;
        }
        assert(outgoing@.take(k as int) =~= outgoing@);
    }

    /// The memory store's turn: it applies its inbound messages, publishes a
    /// snapshot of the memory, and the orchestrator routes it on.
    pub fn simulate_memory(&mut self)
        requires
            old(self).wf(),
        ensures
            final(self).wf(),
            final(self).memory()@ == last_snapshot(old(self).memory()@, old(self).memory().inbound()),
            final(self).memory().outbound() == Seq::<Command>::empty(),
            final(self).engine()@ == old(self).engine()@,
            final(self).bridge().inbound() == Seq::<Command>::empty(),
            final(self).bridge().outbound() == Seq::<Command>::empty(),
    {
        self.memory.process_inbound_commands();
        self.memory.emulate_cycle();
        self.memory.get_commands().forward_inbound(&mut self.router_bridge);
        self.route_to_components();
    }

    /// Routes on what the host adapter published during its turn.
    pub fn simulate_io(&mut self)
        requires
            old(self).wf(),
        ensures
            final(self).wf(),
            final(self).host().outbound() == Seq::<Command>::empty(),
            final(self).engine()@ == old(self).engine()@,
            final(self).engine().inbound() == old(self).engine().inbound() + routed(
                old(self).bridge().inbound() + old(self).host().outbound(),
                false,
                Destination::Engine,
            ),
            final(self).running() == (old(self).running()
                && routed(old(self).bridge().inbound() + old(self).host().outbound(), false, Destination::Stop).len() == 0
                && routed(old(self).bridge().outbound(), true, Destination::Stop).len() == 0),
            final(self).bridge().inbound() == Seq::<Command>::empty(),
            final(self).bridge().outbound() == Seq::<Command>::empty(),
    {
        self.io_commands.forward_inbound(&mut self.router_bridge);
        self.route_to_components();
    }

    /// The engine's turn: it applies its inbound messages, runs one cycle,
    /// and the orchestrator routes what it published. A fault ends the turn
    /// and is returned.
    pub fn simulate_chip8(&mut self) -> (r: Result<(), EmulationError>)
        requires
            old(self).wf(),
        ensures
            final(self).wf(),
            exists|rnd: u8|
                match #[trigger] cycle(handle_all(old(self).engine()@, old(self).engine().inbound()), rnd) {
                    Ok(t) => r is Ok && final(self).engine()@ == t,
                    Err(e) => r == Err::<(), EmulationError>(e) && final(self).engine()@ == handle_all(
                        old(self).engine()@,
                        old(self).engine().inbound(),
                    ),
                },
            r is Ok ==> final(self).engine().inbound() == routed(old(self).bridge().inbound(), false, Destination::Engine),
    {
        self.chip8.read_commands();
        let outcome = self.chip8.emulate_cycle();
        match outcome {
            Ok(()) => {},
            Err(e) => {
                return Err(e);
            },
        }
        self.chip8.get_commands().forward_outbound(&mut self.router_bridge);
        self.route_to_components();
        Ok(())
    }
}

} // verus!
