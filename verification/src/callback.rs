use vstd::prelude::*;

verus! {

/// Identifies a process by its index in the process table.
#[derive(Clone, Copy, PartialEq, Eq, Structural, Debug)]
pub struct AppId {
    idx: usize,
}

impl View for AppId {
    type V = usize;

    closed spec fn view(&self) -> usize {
        self.idx
    }
}

impl AppId {
    /// Names the process at index `idx`.
    pub fn new(idx: usize) -> (r: AppId)
        ensures
            r@ == idx,
    {
        AppId { idx: idx }
    }

    /// The index of the process.
    pub fn idx(&self) -> (r: usize)
        ensures
            r == self@,
    {
        self.idx
    }

    /// Two identifiers are equal exactly when their indices are.
    pub proof fn lemma_eq_iff_idx(a: AppId, b: AppId)
        ensures
            (a == b) <==> (a@ == b@),
    {
    }
}

/// A callback that is not delivered to a process but to a kernel object
/// registered under a handle (used to test drivers without processes).
pub trait FakeCallback {
    fn callback(&mut self, r0: usize, r1: usize, r2: usize);
}

/// The register values with which the kernel resumes a process to run a
/// callback.
#[derive(Clone, Copy, PartialEq, Eq, Structural, Debug)]
pub struct FunctionCall {
    pub r0: usize,
    pub r1: usize,
    pub r2: usize,
    pub r3: usize,
    pub pc: usize,
}

/// What scheduling a callback asks of the kernel.
#[derive(Clone, Copy, PartialEq, Eq, Structural, Debug)]
pub enum Upcall {
    /// Invoke the fake callback registered under `handle`.
    Fake { handle: usize, r0: usize, r1: usize, r2: usize },
    /// Queue `call` on the process `app_id`.
    Process { app_id: AppId, call: FunctionCall },
}

/// A function of a process (or a fake callback) that a driver may call
/// back, with the process's own argument `appdata`.
#[derive(Clone, Copy, PartialEq, Eq, Structural, Debug)]
pub struct Callback {
    app_id: AppId,
    appdata: usize,
    fn_ptr: usize,
    fake_callback: Option<usize>,
}

/// The abstract contents of a callback.
pub ghost struct CallbackView {
    pub app_id: AppId,
    pub appdata: usize,
    pub fn_ptr: usize,
    pub fake_callback: Option<usize>,
}

impl View for Callback {
    type V = CallbackView;

    closed spec fn view(&self) -> CallbackView {
        CallbackView {
            app_id: self.app_id,
            appdata: self.appdata,
            fn_ptr: self.fn_ptr,
            fake_callback: self.fake_callback,
        }
    }
}

/// The upcall that scheduling `cb` with arguments `r0`, `r1`, `r2` asks for.
pub open spec fn scheduled_upcall(cb: CallbackView, r0: usize, r1: usize, r2: usize) -> Upcall {
    match cb.fake_callback {
        Some(handle) => Upcall::Fake { handle, r0, r1, r2 },
        None => Upcall::Process {
            app_id: cb.app_id,
            call: FunctionCall { r0, r1, r2, r3: cb.appdata, pc: cb.fn_ptr },
        },
    }
}

impl Callback {
    /// A callback to the function at address `fn_ptr` of process `appid`,
    /// or to the fake callback `fake_callback` where one is given.
    pub fn new(appid: AppId, appdata: usize, fn_ptr: usize, fake_callback: Option<usize>) -> (r:
        Callback)
        requires
            fn_ptr != 0,
        ensures
            r@ == (CallbackView { app_id: appid, appdata, fn_ptr, fake_callback }),
    {
        Callback { app_id: appid, appdata: appdata, fn_ptr: fn_ptr, fake_callback: fake_callback }
    }

    /// Schedules this callback with the three arguments: a fake callback is
    /// invoked directly, otherwise a function call is queued on the process
    /// with the process's `appdata` as fourth argument.
    pub fn schedule(&self, r0: usize, r1: usize, r2: usize) -> (u: Upcall)
        ensures
            u == scheduled_upcall(self@, r0, r1, r2),
    {
        match self.fake_callback {
            Some(handle) => Upcall::Fake { handle: handle, r0: r0, r1: r1, r2: r2 },
            None => Upcall::Process {
                app_id: self.app_id,
                call: FunctionCall {
                    r0: r0,
                    r1: r1,
                    r2: r2,
                    r3: self.appdata,
                    pc: self.fn_ptr,
                },
            },
        }
    }

    /// The process this callback belongs to.
    pub fn app_id(&self) -> (r: AppId)
        ensures
            r == self@.app_id,
    {
        self.app_id
    }
}

} // verus!
