//! A container polling many controllers as one.

use vstd::prelude::*;
use crate::controllers::{ControlError, Controller};
use crate::time::{Instant, MAX_INSTANT_MILLIS};
use crate::types::Message;

verus! {

/// The messages of `rs`, kept in order, with the empty results left out.
pub open spec fn spec_collect(rs: Seq<Option<Message>>) -> Seq<Message>
    decreases rs.len(),
{
    if rs.len() == 0 {
        Seq::<Message>::empty()
    } else {
        spec_collect(rs.drop_last()) + (match rs.last() {
            Some(m) => seq![m],
            None => Seq::<Message>::empty(),
        })
    }
}

/// A mutable reference to one element of a vector.
fn vec_index_mut<T>(v: &mut Vec<T>, i: usize) -> (element: &mut T)
    requires
        i < old(v).len(),
    ensures
        *element == old(v)@[i as int],
        final(v)@ == old(v)@.update(i as int, *final(element)),
{
    &mut v[i]
}

/// An insertion-ordered collection of [`Controller`]s polled as one.
///
/// Once added, a controller is owned by the group and reached only through
/// the name and poll capabilities. One poll call polls every member in
/// insertion order and hands back the messages of the members that fired,
/// in that same order.
pub struct ControllerGroup {
    controllers: Vec<Controller>,
}

impl ControllerGroup {
    /// The members, in insertion order.
    pub closed spec fn members(&self) -> Seq<Controller> {
        self.controllers@
    }

    /// Validity: every member is valid.
    pub open spec fn wf(&self) -> bool {
        forall|i: int| 0 <= i < self.members().len() ==> (#[trigger] self.members()[i]).wf()
    }

    /// An empty group.
    pub fn new() -> (r: ControllerGroup)
        ensures
            r.members() == Seq::<Controller>::empty(),
            r.wf(),
    {
        ControllerGroup { controllers: Vec::new() }
    }

    /// Builder method adding a controller at the end of the group.
    pub fn add_controller(self, controller: Controller) -> (r: ControllerGroup)
        ensures
            r.members() == self.members().push(controller),
            self.wf() && controller.wf() ==> r.wf(),
    {
        let ghost pre = self;
        let mut r = self;
        r.controllers.push(controller);
        proof {
            if pre.wf() && controller.wf() {
                assert forall|i: int| 0 <= i < r.members().len() implies (
                #[trigger] r.members()[i]).wf() by {
                    if i < pre.members().len() {
                        assert(r.members()[i] == pre.members()[i]);
                    } else {
                        assert(r.members()[i] == controller);
                    }
                }
            }
        }
        r
    }

    /// The members, for reading names or other exposed state.
    pub fn get_controllers(&self) -> (r: &Vec<Controller>)
        ensures
            r@ == self.members(),
    {
        &self.controllers
    }

    /// Poll every member in insertion order and collect the messages of
    /// the members that fired, preserving that order and skipping members
    /// that produced none.
    ///
    /// The first failing member aborts the poll: its error is returned,
    /// the members before it have been polled, and the members after it
    /// are untouched.
    #[verifier::loop_isolation(false)]
    pub fn poll(&mut self, time: Instant) -> (r: Result<Vec<Message>, ControlError>)
        requires
            old(self).wf(),
            -MAX_INSTANT_MILLIS <= time.millis <= MAX_INSTANT_MILLIS,
        ensures
            final(self).members().len() == old(self).members().len(),
            final(self).wf(),
            r matches Ok(msgs) ==> poll_completed(old(self).members(), final(self).members(), time, msgs@),
            r matches Err(e) ==> poll_failed(old(self).members(), final(self).members(), time, e),
    {
        let mut messages: Vec<Message> = Vec::new();
        let ghost mut rs: Seq<Option<Message>> = Seq::<Option<Message>>::empty();
        let mut failure: Option<ControlError> = None;
        let n: usize = self.controllers.len();
        let mut i: usize = 0;
        while i < n && failure.is_none()
            invariant
                n == self.controllers.len(),
                n == old(self).members().len(),
                0 <= i <= n,
                forall|j: int|
                    #![trigger self.controllers@[j]]
                    i <= j < n ==> self.controllers@[j] == old(self).members()[j],
                forall|j: int| 0 <= j < n ==> (#[trigger] self.controllers@[j]).wf(),
                failure is None ==> rs.len() == i,
                failure is Some ==> rs.len() == i - 1,
                forall|j: int|
                    0 <= j < rs.len() ==> #[trigger] Controller::poll_transition(
                        old(self).members()[j],
                        self.controllers@[j],
                        time,
                        Result::<Option<Message>, ControlError>::Ok(rs[j]),
                    ),
                messages@ == spec_collect(rs),
                failure matches Some(e) ==> i >= 1 && Controller::poll_transition(
                    old(self).members()[i - 1],
                    self.controllers@[i - 1],
                    time,
                    Result::<Option<Message>, ControlError>::Err(e),
                ),
            decreases n - i,
        {
            let c = vec_index_mut(&mut self.controllers, i);
            match c.poll(time) {
                Ok(result) => {
                    proof {
                        let prev = rs;
                        rs = rs.push(result);
                        assert(rs.drop_last() =~= prev);
                    }
                    match result {
                        Some(message) => {
                            messages.push(message);
                        },
                        None => {},
                    }
                },
                Err(e) => {
                    failure = Some(e);
                },
            }
            i = i + 1;
        }
        match failure {
            Some(e) => {
                proof {
                    let k = i - 1;
                    let post = self.members();
                    assert forall|q: int| #![trigger post[q]] k < q < old(
                        self,
                    ).members().len() implies post[q] == old(self).members()[q] by {
                        assert(self.controllers@[q] == old(self).members()[q]);
                    }
                    assert(poll_aborted(old(self).members(), post, time, e, k, rs));
                    assert(poll_failed(old(self).members(), post, time, e));
                }
                Err(e)
            },
            None => {
                proof {
                    assert(polled_all(old(self).members(), self.members(), time, rs));
                    assert(poll_completed(old(self).members(), self.members(), time, messages@));
                }
                Ok(messages)
            },
        }
    }
}

/// A completed group poll: some per-member result sequence `rs` explains
/// `msgs` as the collected messages, in insertion order.
pub open spec fn poll_completed(
    pre: Seq<Controller>,
    post: Seq<Controller>,
    time: Instant,
    msgs: Seq<Message>,
) -> bool {
    exists|rs: Seq<Option<Message>>|
        #[trigger] polled_all(pre, post, time, rs) && msgs == spec_collect(rs)
}

/// A failed group poll: at some member the poll aborted with `e`.
pub open spec fn poll_failed(
    pre: Seq<Controller>,
    post: Seq<Controller>,
    time: Instant,
    e: ControlError,
) -> bool {
    exists|k: int, rs: Seq<Option<Message>>| #[trigger] poll_aborted(pre, post, time, e, k, rs)
}

/// Every member was polled without failure: `rs` lists, member by member
/// and in insertion order, what each poll returned.
pub open spec fn polled_all(
    pre: Seq<Controller>,
    post: Seq<Controller>,
    time: Instant,
    rs: Seq<Option<Message>>,
) -> bool {
    &&& rs.len() == pre.len()
    &&& post.len() == pre.len()
    &&& forall|i: int|
        0 <= i < rs.len() ==> #[trigger] Controller::poll_transition(
            pre[i],
            post[i],
            time,
            Result::<Option<Message>, ControlError>::Ok(rs[i]),
        )
}

/// A group poll aborted at member `k`: the members before `k` were polled
/// and returned the messages of `rs`, member `k` failed with `e`, and the
/// members after it are untouched.
pub open spec fn poll_aborted(
    pre: Seq<Controller>,
    post: Seq<Controller>,
    time: Instant,
    e: ControlError,
    k: int,
    rs: Seq<Option<Message>>,
) -> bool {
    &&& 0 <= k < pre.len()
    &&& rs.len() == k
    &&& post.len() == pre.len()
    &&& Controller::poll_transition(
        pre[k],
        post[k],
        time,
        Result::<Option<Message>, ControlError>::Err(e),
    )
    &&& forall|i: int|
        0 <= i < k ==> #[trigger] Controller::poll_transition(
            pre[i],
            post[i],
            time,
            Result::<Option<Message>, ControlError>::Ok(rs[i]),
        )
    &&& forall|i: int| #![trigger post[i]] k < i < pre.len() ==> post[i] == pre[i]
}

} // verus!
