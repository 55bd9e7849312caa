//! The device abstraction: command vocabulary, state, and the
//! command-application policy.

use vstd::prelude::*;

verus! {

/// A command that may be applied to a device.
///
/// `SetLevel` carries no payload of its own; the explicit target level
/// travels as a separate optional argument of [`Device::take_action`].
#[derive(Clone, Copy, PartialEq, Eq, Structural, Debug)]
pub enum Action {
    On,
    Off,
    Up,
    Down,
    SetLevel,
}

/// Why a command was rejected. A rejected command leaves the device unchanged.
#[derive(Clone, Copy, PartialEq, Eq, Structural, Debug)]
pub enum CommandError {
    /// The command is not in the device's `available_actions`.
    UnsupportedAction,
    /// `SetLevel` was applied without an explicit target level.
    MissingLevel,
}

/// An actuator's in-memory state: its current command, its position in the
/// duty-cycle table, and the policy data fixed at construction.
///
/// The device never touches hardware; the control loop reads the duty
/// fraction from it and writes the scaled value to the driver itself.
pub struct Device {
    /// Identifying label, immutable after creation.
    pub name: String,
    /// The last successfully applied command.
    pub action: Action,
    /// The set of commands this device instance accepts.
    pub available_actions: Vec<Action>,
    /// Fallback index used when the device is switched `On`.
    pub default_target: usize,
    /// Duty-cycle fractions in percent, indexed by `target`; fixed at
    /// construction.
    pub duty_cycles: Vec<u32>,
    /// Current index into `duty_cycles`.
    pub target: usize,
    /// The PWM carrier frequency the device expects; informational.
    pub freq_khz: u32,
}

impl Device {
    /// Well-formedness: the duty table is non-empty, both indices stay inside
    /// it, and every duty fraction is a percentage.
    pub open spec fn wf(self) -> bool {
        &&& 0 < self.duty_cycles@.len() <= usize::MAX
        &&& self.target < self.duty_cycles@.len()
        &&& self.default_target < self.duty_cycles@.len()
        &&& forall|i: int|
            0 <= i < self.duty_cycles@.len() ==> self.duty_cycles@[i] <= 100
    }

    /// The target index after a command is applied: `On` jumps to the
    /// default, `Off` to index zero, `Up` and `Down` step by one clamped to
    /// the table, and `SetLevel` adopts the given level clamped to the table.
    pub open spec fn spec_target_after(self, action: Action, level: Option<usize>) -> int {
        let last = self.duty_cycles@.len() - 1;
        match action {
            Action::On => self.default_target as int,
            Action::Off => 0,
            Action::Up => if self.target < last {
                self.target + 1
            } else {
                last
            },
            Action::Down => if self.target > 0 {
                self.target - 1
            } else {
                0
            },
            Action::SetLevel => match level {
                Some(l) => if l <= last {
                    l as int
                } else {
                    last
                },
                None => self.target as int,
            },
        }
    }

    /// The whole device state after a command is successfully applied: the
    /// target moves as [`Self::spec_target_after`] says, the command is
    /// recorded, and everything else is kept.
    pub open spec fn spec_apply(self, action: Action, level: Option<usize>) -> Device {
        Device {
            action,
            target: self.spec_target_after(action, level) as usize,
            ..self
        }
    }

    /// A fresh device: switched `Off` at target index zero.
    pub fn new(
        name: String,
        available_actions: Vec<Action>,
        default_target: usize,
        duty_cycles: Vec<u32>,
        freq_khz: u32,
    ) -> (d: Device)
        requires
            0 < duty_cycles@.len(),
            default_target < duty_cycles@.len(),
            forall|i: int| 0 <= i < duty_cycles@.len() ==> duty_cycles@[i] <= 100,
        ensures
            d.wf(),
            d.name == name,
            d.action == Action::Off,
            d.available_actions == available_actions,
            d.default_target == default_target,
            d.duty_cycles == duty_cycles,
            d.target == 0,
            d.freq_khz == freq_khz,
    {
        // the exec length, a usize, bounds the view's length for `wf`
        let n = duty_cycles.len();
        assert(duty_cycles@.len() == n);
        Device {
            name,
            action: Action::Off,
            available_actions,
            default_target,
            duty_cycles,
            target: 0,
            freq_khz,
        }
    }

    /// Whether this device accepts the given command.
    pub fn supports(&self, action: Action) -> (r: bool)
        ensures
            r == self.available_actions@.contains(action),
    {
        let n = self.available_actions.len();
        let mut i: usize = 0;
        while i < n
            invariant
                n == self.available_actions@.len(),
                i <= n,
                forall|j: int| 0 <= j < i ==> self.available_actions@[j] != action,
            decreases n - i,
        {
            if self.available_actions[i] == action {
                return true;
            }
            i = i + 1;
        }
        false
    }

    /// Apply a command, with an explicit target level for `SetLevel`.
    ///
    /// A command outside `available_actions`, or a `SetLevel` without a
    /// level, is rejected with an error and the state is untouched; any
    /// other command
    /// succeeds, moves `target` as [`Self::spec_target_after`] says, and
    /// records itself in `action`.
    pub fn take_action(&mut self, action: Action, level: Option<usize>) -> (r: Result<
        (),
        CommandError,
    >)
        requires
            old(self).wf(),
        ensures
            final(self).wf(),
            !old(self).available_actions@.contains(action) ==> r == Err::<
                (),
                CommandError,
            >(CommandError::UnsupportedAction) && *final(self) == *old(self),
            old(self).available_actions@.contains(action) && action == Action::SetLevel && level
                is None ==> r == Err::<(), CommandError>(CommandError::MissingLevel) && *final(self)
                == *old(self),
            old(self).available_actions@.contains(action) && !(action == Action::SetLevel && level
                is None) ==> r == Ok::<(), CommandError>(()) && *final(self) == old(
                self,
            ).spec_apply(action, level),
    {
        if !self.supports(action) {
            return Err(CommandError::UnsupportedAction);
        }
        let last = self.duty_cycles.len() - 1;
        match action {
            Action::On => {
                self.target = self.default_target;
            },
            Action::Off => {
                self.target = 0;
            },
            Action::Up => {
                if self.target < last {
                    self.target = self.target + 1;
                } else {
                    self.target = last;
                }
            },
            Action::Down => {
                if self.target > 0 {
                    self.target = self.target - 1;
                }
            },
            Action::SetLevel => {
                match level {
                    Some(l) => {
                        if l <= last {
                            self.target = l;
                        } else {
                            self.target = last;
                        }
                    },
                    None => {
                        return Err(CommandError::MissingLevel);
                    },
                }
            },
        }
        self.action = action;
        Ok(())
    }

    /// The device after `n` successive `Up` commands.
    pub open spec fn spec_apply_ups(self, n: nat) -> Device
        decreases n,
    {
        if n == 0 {
            self
        } else {
            self.spec_apply_ups((n - 1) as nat).spec_apply(Action::Up, None)
        }
    }

    /// The duty fraction currently selected: `duty_cycles[target]`.
    pub fn get_duty_cycle(&self) -> (r: u32)
        requires
            self.wf(),
        ensures
            r == self.duty_cycles@[self.target as int],
            self.duty_cycles@.contains(r),
            r <= 100,
    {
        self.duty_cycles[self.target]
    }
}

/// Law: from an interior target (neither end of the duty table), `Up` then
/// `Down` — and likewise `Down` then `Up` — returns the device to its
/// original target.
pub proof fn lemma_up_down_round_trip(d: Device)
    requires
        d.wf(),
        0 < d.target,
        d.target + 1 < d.duty_cycles@.len(),
    ensures
        d.spec_apply(Action::Up, None).spec_apply(Action::Down, None).target == d.target,
        d.spec_apply(Action::Down, None).spec_apply(Action::Up, None).target == d.target,
{
}

/// Law: once serialized, no increment is lost: `n` successive `Up` commands
/// from a target with at least `n` steps of headroom raise the target by
/// exactly `n`.
pub proof fn lemma_ups_never_lost(d: Device, n: nat)
    requires
        d.wf(),
        d.target + n < d.duty_cycles@.len(),
    ensures
        d.spec_apply_ups(n).wf(),
        d.spec_apply_ups(n).target == d.target + n,
        d.spec_apply_ups(n).duty_cycles == d.duty_cycles,
    decreases n,
{
    if n > 0 {
        lemma_ups_never_lost(d, (n - 1) as nat);
    }
}

} // verus!
