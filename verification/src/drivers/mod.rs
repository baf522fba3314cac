//! Broker of singleton hardware resources.
//!
//! Each resource type lives in one [`ResourceCell`], which holds zero or one
//! instance. Drivers reach a shared cell through a [`DriverHandle`], a
//! copyable token; every access through a handle runs inside one critical
//! section, so no two accessors ever see or create two occupants.

use vstd::prelude::*;

pub mod gpio;
pub mod i2c;
pub mod oled;
pub mod uart;

verus! {

/// `critical_section::Mutex`, a cell that is only reachable inside a critical
/// section. Nothing is known of its content.
#[verifier::external_type_specification]
#[verifier::external_body]
#[verifier::reject_recursive_types(T)]
pub struct ExSectionMutex<T>(critical_section::Mutex<T>);

/// `core::cell::RefCell`. Nothing is known of its content.
#[verifier::external_type_specification]
#[verifier::external_body]
#[verifier::reject_recursive_types(T)]
pub struct ExRefCell<T: ?Sized>(core::cell::RefCell<T>);

/// Why a driver could not be brought up or reached.
#[derive(Debug)]
pub enum DriverError {
    /// The cell already holds an instance.
    AlreadyInitialized,
    /// A resource that the driver builds on is absent.
    NotReady,
    /// Constructing the instance failed, with the reason.
    InitFailed(&'static str),
}

/// Singleton slot for one resource type: empty, or occupied by one instance.
pub struct ResourceCell<T> {
    /// The instance, if the cell is occupied.
    pub slot: Option<T>,
}

impl<T> ResourceCell<T> {
    /// The cell holds an instance.
    pub open spec fn is_occupied(self) -> bool {
        self.slot is Some
    }

    /// The cell after its instance was removed.
    pub open spec fn taken(self) -> Self {
        ResourceCell { slot: None }
    }

    /// The cell after `value` was installed.
    pub open spec fn replaced(self, value: T) -> Self {
        ResourceCell { slot: Some(value) }
    }

    /// The cell and the verdict after an initialization whose constructor
    /// yielded `made`. An occupied cell never consults the constructor.
    pub open spec fn init_step(self, made: Result<T, &'static str>) -> (Self, Result<(), DriverError>) {
        if self.slot is Some {
            (self, Err(DriverError::AlreadyInitialized))
        } else {
            match made {
                Ok(value) => (ResourceCell { slot: Some(value) }, Ok(())),
                Err(reason) => (self, Err(DriverError::InitFailed(reason))),
            }
        }
    }

    /// An empty cell.
    pub fn new() -> (cell: Self)
        ensures
            !cell.is_occupied(),
    {
        ResourceCell { slot: None }
    }

    /// Whether the cell holds an instance.
    pub fn is_ready(&self) -> (ready: bool)
        ensures
            ready == self.is_occupied(),
    {
        self.slot.is_some()
    }

    /// Constructs and installs the instance if the cell is empty. An occupied
    /// cell is left as it is, and `make` is not called.
    pub fn init<F: FnOnce() -> Result<T, &'static str>>(&mut self, make: F) -> (verdict: Result<
        (),
        DriverError,
    >)
        requires
            call_requires(make, ()),
        ensures
            exists|made: Result<T, &'static str>|
                (!old(self).is_occupied() ==> call_ensures(make, (), made)) && (
                *final(self),
                verdict,
            ) == old(self).init_step(made),
    {
        if self.slot.is_some() {
            proof {
                let witness: Result<T, &'static str> = Err("");
                assert((*self, Err::<(), DriverError>(DriverError::AlreadyInitialized))
                    == old(self).init_step(witness));
            }
            return Err(DriverError::AlreadyInitialized);
        }
        let made = make();
        let ghost outcome = made;
        let verdict = match made {
            Ok(value) => {
                self.slot = Some(value);
                Ok(())
            },
            Err(reason) => Err(DriverError::InitFailed(reason)),
        };
        proof {
            assert(call_ensures(make, (), outcome));
            assert((*self, verdict) == old(self).init_step(outcome));
        }
        verdict
    }

    /// Runs `op` against the instance if present and returns its result;
    /// `None` if the cell is empty.
    pub fn try_with<R, F: FnOnce(&mut T) -> R>(&mut self, op: F) -> (result: Option<R>)
        requires
            forall|instance: &mut T|
                old(self).slot == Some(*instance) ==> call_requires(op, (instance,)),
        ensures
            !old(self).is_occupied() ==> result is None && !final(self).is_occupied(),
            old(self).is_occupied() ==> exists|instance: &mut T, out: R|
                old(self).slot == Some(*instance) && call_ensures(op, (instance,), out) && result
                    == Some(out) && final(self).slot == Some(*final(instance)),
    {
        match &mut self.slot {
            Some(instance) => Some(op(instance)),
            None => None,
        }
    }

    /// Removes and returns the instance, leaving the cell empty; `None` if it
    /// was empty already.
    pub fn take(&mut self) -> (instance: Option<T>)
        ensures
            instance == old(self).slot,
            *final(self) == old(self).taken(),
    {
        self.slot.take()
    }

    /// Installs `value` and returns whatever the cell held before.
    pub fn replace(&mut self, value: T) -> (previous: Option<T>)
        ensures
            previous == old(self).slot,
            *final(self) == old(self).replaced(value),
    {
        let previous = self.slot.take();
        self.slot = Some(value);
        previous
    }
}

/// Taking from an empty cell yields nothing and leaves the cell empty, and
/// installing a value afterwards makes the cell hold that value again, where
/// `try_with` finds it.
pub proof fn lemma_take_then_replace<T>(cell: ResourceCell<T>, value: T)
    requires
        !cell.is_occupied(),
    ensures
        cell.slot is None,
        !cell.taken().is_occupied(),
        cell.taken().replaced(value).is_occupied(),
        cell.taken().replaced(value).slot == Some(value),
{
}

/// Of two initializations in a row on an empty cell, the first installs what
/// its constructor made, and the second fails with `AlreadyInitialized`
/// whatever its constructor would have made, leaving the first instance in
/// place.
pub proof fn lemma_second_init_is_refused<T>(
    cell: ResourceCell<T>,
    first: T,
    second: Result<T, &'static str>,
)
    requires
        !cell.is_occupied(),
    ensures
        cell.init_step(Ok(first)).1 is Ok,
        cell.init_step(Ok(first)).0.slot == Some(first),
        cell.init_step(Ok(first)).0.init_step(second).1 == Err::<(), DriverError>(
            DriverError::AlreadyInitialized,
        ),
        cell.init_step(Ok(first)).0.init_step(second).0 == cell.init_step(Ok(first)).0,
{
}

/// A failed constructor leaves an empty cell empty, so a later
/// initialization can still succeed.
pub proof fn lemma_failed_init_leaves_cell_empty<T>(cell: ResourceCell<T>, reason: &'static str)
    requires
        !cell.is_occupied(),
    ensures
        cell.init_step(Err(reason)).1 == Err::<(), DriverError>(DriverError::InitFailed(reason)),
        cell.init_step(Err(reason)).0 == cell,
{
}

/// A resource cell that tasks and interrupt handlers can share.
pub type DriverCell<T> = critical_section::Mutex<core::cell::RefCell<ResourceCell<T>>>;

/// Runs `op` on the content of `cell` inside one critical section and returns
/// its result: `critical_section::with` enters the section, `Mutex::borrow`
/// reaches the `RefCell`, and `RefCell::try_borrow_mut` claims its content.
/// When the content is claimed already, by an operation further up the call
/// stack on the same cell, `op` is dropped uncalled and the result is `None`.
/// The contract claims only that a result, when there is one, is one that
/// `op` can return: what the cell holds depends on its other users.
#[verifier::external_body]
fn with_cell<T, R, F: FnOnce(&mut ResourceCell<T>) -> R>(cell: &DriverCell<T>, op: F) -> (result:
    Option<R>)
    requires
        forall|content: &mut ResourceCell<T>| call_requires(op, (content,)),
    ensures
        result matches Some(out) ==> exists|content: &mut ResourceCell<T>|
            call_ensures(op, (content,), out),
{
    critical_section::with(
        |section| match cell.borrow(section).try_borrow_mut() {
            Ok(mut content) => Some(op(&mut content)),
            Err(_) => None,
        },
    )
}

/// Copyable capability for one shared resource cell. It owns nothing: the
/// instance lives in the cell, and another holder may have taken it.
#[verifier::reject_recursive_types(T)]
pub struct DriverHandle<T: 'static> {
    cell: &'static DriverCell<T>,
}

impl<T: 'static> Copy for DriverHandle<T> {

}

impl<T: 'static> Clone for DriverHandle<T> {
    fn clone(&self) -> (copy: Self)
        ensures
            copy == *self,
    {
        *self
    }
}

impl<T: 'static> DriverHandle<T> {
    /// A handle for `cell`.
    pub fn new(cell: &'static DriverCell<T>) -> (handle: Self)
        ensures
            handle.cell() == cell,
    {
        DriverHandle { cell }
    }

    /// Constructs and installs the instance of `cell` if the cell is empty,
    /// all inside one critical section, and returns a handle for it.
    pub fn init<F: FnOnce() -> Result<T, &'static str>>(
        cell: &'static DriverCell<T>,
        make: F,
    ) -> (verdict: Result<DriverHandle<T>, DriverError>)
        requires
            call_requires(make, ()),
        ensures
            verdict is Ok ==> exists|value: T| call_ensures(make, (), Ok(value)),
            verdict matches Ok(handle) ==> handle.cell() == cell,
            verdict matches Err(DriverError::InitFailed(reason)) ==> call_ensures(
                make,
                (),
                Err(reason),
            ),
    {
        let install = |content: &mut ResourceCell<T>| -> (verdict: Result<(), DriverError>)
            ensures
                verdict is Ok ==> exists|value: T| call_ensures(make, (), Ok(value)),
                verdict matches Err(DriverError::InitFailed(reason)) ==> call_ensures(
                    make,
                    (),
                    Err(reason),
                ),
            {
                content.init(make)
            };
        let installed = with_cell(cell, install);
        match installed {
            Some(Ok(_)) => Ok(DriverHandle { cell }),
            Some(Err(error)) => Err(error),
            None => Err(DriverError::NotReady),
        }
    }

    /// Whether the cell holds an instance right now.
    pub fn is_ready(&self) -> (ready: bool) {
        let seen = with_cell(
            self.cell,
            |content: &mut ResourceCell<T>| -> (ready: bool) { content.is_ready() },
        );
        match seen {
            Some(ready) => ready,
            None => false,
        }
    }

    /// Runs `op` against the instance inside one critical section and returns
    /// its result; `None` if the instance is absent or in use further up the
    /// call stack. Absence is no error: the resource is unavailable for now.
    pub fn try_with<R, F: FnOnce(&mut T) -> R>(&self, op: F) -> (result: Option<R>)
        requires
            forall|instance: &mut T| call_requires(op, (instance,)),
        ensures
            result matches Some(out) ==> exists|instance: &mut T|
                call_ensures(op, (instance,), out),
    {
        let run = |content: &mut ResourceCell<T>| -> (result: Option<R>)
            ensures
                result matches Some(out) ==> exists|instance: &mut T|
                    call_ensures(op, (instance,), out),
            {
                let result = content.try_with(op);
                proof {
                    if result is Some {
                        let (instance, out) = choose|instance: &mut T, out: R|
                            call_ensures(op, (instance,), out) && result == Some(out);
                        assert(call_ensures(op, (instance,), result->0));
                    }
                }
                result
            };
        let ran = with_cell(self.cell, run);
        match ran {
            Some(result) => result,
            None => None,
        }
    }

    /// Removes and returns the instance, leaving the cell empty; `None` if it
    /// is absent.
    pub fn take(&self) -> (instance: Option<T>) {
        let taken = with_cell(
            self.cell,
            |content: &mut ResourceCell<T>| -> (instance: Option<T>) { content.take() },
        );
        match taken {
            Some(instance) => instance,
            None => None,
        }
    }

    /// Installs `value` and returns whatever the cell held before. A cell in
    /// use further up the call stack is left alone, and `value` is dropped.
    pub fn replace(&self, value: T) -> (previous: Option<T>) {
        let swapped = with_cell(
            self.cell,
            |content: &mut ResourceCell<T>| -> (previous: Option<T>) { content.replace(value) },
        );
        match swapped {
            Some(previous) => previous,
            None => None,
        }
    }

    /// The cell that the handle refers to.
    pub closed spec fn cell(self) -> &'static DriverCell<T> {
        self.cell
    }
}

} // verus!
