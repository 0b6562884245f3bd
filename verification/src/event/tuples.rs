//! Reading and writing tuples of readers and writers, one component after the
//! other, from the first to the last; writing the empty tuple changes nothing.
use vstd::prelude::*;
use crate::event::{Event, EventView, FromEvent, IntoEvent};

verus! {

/// Writing no component leaves the event as it was.
impl IntoEvent for () {
    open spec fn written_into(self, e: EventView) -> EventView {
        e
    }

    fn into_event(self, e: &mut Event) {
    }
}

impl<A0: FromEvent> FromEvent for (A0,) {
    open spec fn is_read_of(e: EventView, r: (A0,)) -> bool {
        &&& A0::is_read_of(e, r.0)
    }

    open spec fn left_after_read(e: EventView) -> EventView {
        A0::left_after_read(e)
    }

    fn from_event(e: &mut Event) -> (r: (A0,)) {
        let a0 = A0::from_event(e);
        (a0,)
    }
}

impl<A0: IntoEvent> IntoEvent for (A0,) {
    open spec fn written_into(self, e: EventView) -> EventView {
        self.0.written_into(e)
    }

    fn into_event(self, e: &mut Event) {
        let (a0,) = self;
        a0.into_event(e);
    }
}

impl<A0: FromEvent, A1: FromEvent> FromEvent for (A0, A1) {
    open spec fn is_read_of(e: EventView, r: (A0, A1)) -> bool {
        &&& A0::is_read_of(e, r.0)
        &&& A1::is_read_of(A0::left_after_read(e), r.1)
    }

    open spec fn left_after_read(e: EventView) -> EventView {
        A1::left_after_read(A0::left_after_read(e))
    }

    fn from_event(e: &mut Event) -> (r: (A0, A1)) {
        let a0 = A0::from_event(e);
        let a1 = A1::from_event(e);
        (a0, a1)
    }
}

impl<A0: IntoEvent, A1: IntoEvent> IntoEvent for (A0, A1) {
    open spec fn written_into(self, e: EventView) -> EventView {
        self.1.written_into(self.0.written_into(e))
    }

    fn into_event(self, e: &mut Event) {
        let (a0, a1) = self;
        a0.into_event(e);
        a1.into_event(e);
    }
}

impl<A0: FromEvent, A1: FromEvent, A2: FromEvent> FromEvent for (A0, A1, A2) {
    open spec fn is_read_of(e: EventView, r: (A0, A1, A2)) -> bool {
        &&& A0::is_read_of(e, r.0)
        &&& A1::is_read_of(A0::left_after_read(e), r.1)
        &&& A2::is_read_of(A1::left_after_read(A0::left_after_read(e)), r.2)
    }

    open spec fn left_after_read(e: EventView) -> EventView {
        A2::left_after_read(A1::left_after_read(A0::left_after_read(e)))
    }

    fn from_event(e: &mut Event) -> (r: (A0, A1, A2)) {
        let a0 = A0::from_event(e);
        let a1 = A1::from_event(e);
        let a2 = A2::from_event(e);
        (a0, a1, a2)
    }
}

impl<A0: IntoEvent, A1: IntoEvent, A2: IntoEvent> IntoEvent for (A0, A1, A2) {
    open spec fn written_into(self, e: EventView) -> EventView {
        self.2.written_into(self.1.written_into(self.0.written_into(e)))
    }

    fn into_event(self, e: &mut Event) {
        let (a0, a1, a2) = self;
        a0.into_event(e);
        a1.into_event(e);
        a2.into_event(e);
    }
}

impl<A0: FromEvent, A1: FromEvent, A2: FromEvent, A3: FromEvent> FromEvent for (A0, A1, A2, A3) {
    open spec fn is_read_of(e: EventView, r: (A0, A1, A2, A3)) -> bool {
        &&& A0::is_read_of(e, r.0)
        &&& A1::is_read_of(A0::left_after_read(e), r.1)
        &&& A2::is_read_of(A1::left_after_read(A0::left_after_read(e)), r.2)
        &&& A3::is_read_of(A2::left_after_read(A1::left_after_read(A0::left_after_read(e))), r.3)
    }

    open spec fn left_after_read(e: EventView) -> EventView {
        A3::left_after_read(A2::left_after_read(A1::left_after_read(A0::left_after_read(e))))
    }

    fn from_event(e: &mut Event) -> (r: (A0, A1, A2, A3)) {
        let a0 = A0::from_event(e);
        let a1 = A1::from_event(e);
        let a2 = A2::from_event(e);
        let a3 = A3::from_event(e);
        (a0, a1, a2, a3)
    }
}

impl<A0: IntoEvent, A1: IntoEvent, A2: IntoEvent, A3: IntoEvent> IntoEvent for (A0, A1, A2, A3) {
    open spec fn written_into(self, e: EventView) -> EventView {
        self.3.written_into(self.2.written_into(self.1.written_into(self.0.written_into(e))))
    }

    fn into_event(self, e: &mut Event) {
        let (a0, a1, a2, a3) = self;
        a0.into_event(e);
        a1.into_event(e);
        a2.into_event(e);
        a3.into_event(e);
    }
}

impl<A0: FromEvent, A1: FromEvent, A2: FromEvent, A3: FromEvent, A4: FromEvent> FromEvent for (A0, A1, A2, A3, A4) {
    open spec fn is_read_of(e: EventView, r: (A0, A1, A2, A3, A4)) -> bool {
        &&& A0::is_read_of(e, r.0)
        &&& A1::is_read_of(A0::left_after_read(e), r.1)
        &&& A2::is_read_of(A1::left_after_read(A0::left_after_read(e)), r.2)
        &&& A3::is_read_of(A2::left_after_read(A1::left_after_read(A0::left_after_read(e))), r.3)
        &&& A4::is_read_of(A3::left_after_read(A2::left_after_read(A1::left_after_read(A0::left_after_read(e)))), r.4)
    }

    open spec fn left_after_read(e: EventView) -> EventView {
        A4::left_after_read(A3::left_after_read(A2::left_after_read(A1::left_after_read(A0::left_after_read(e)))))
    }

    fn from_event(e: &mut Event) -> (r: (A0, A1, A2, A3, A4)) {
        let a0 = A0::from_event(e);
        let a1 = A1::from_event(e);
        let a2 = A2::from_event(e);
        let a3 = A3::from_event(e);
        let a4 = A4::from_event(e);
        (a0, a1, a2, a3, a4)
    }
}

impl<A0: IntoEvent, A1: IntoEvent, A2: IntoEvent, A3: IntoEvent, A4: IntoEvent> IntoEvent for (A0, A1, A2, A3, A4) {
    open spec fn written_into(self, e: EventView) -> EventView {
        self.4.written_into(self.3.written_into(self.2.written_into(self.1.written_into(self.0.written_into(e)))))
    }

    fn into_event(self, e: &mut Event) {
        let (a0, a1, a2, a3, a4) = self;
        a0.into_event(e);
        a1.into_event(e);
        a2.into_event(e);
        a3.into_event(e);
        a4.into_event(e);
    }
}

impl<A0: FromEvent, A1: FromEvent, A2: FromEvent, A3: FromEvent, A4: FromEvent, A5: FromEvent> FromEvent for (A0, A1, A2, A3, A4, A5) {
    open spec fn is_read_of(e: EventView, r: (A0, A1, A2, A3, A4, A5)) -> bool {
        &&& A0::is_read_of(e, r.0)
        &&& A1::is_read_of(A0::left_after_read(e), r.1)
        &&& A2::is_read_of(A1::left_after_read(A0::left_after_read(e)), r.2)
        &&& A3::is_read_of(A2::left_after_read(A1::left_after_read(A0::left_after_read(e))), r.3)
        &&& A4::is_read_of(A3::left_after_read(A2::left_after_read(A1::left_after_read(A0::left_after_read(e)))), r.4)
        &&& A5::is_read_of(A4::left_after_read(A3::left_after_read(A2::left_after_read(A1::left_after_read(A0::left_after_read(e))))), r.5)
    }

    open spec fn left_after_read(e: EventView) -> EventView {
        A5::left_after_read(A4::left_after_read(A3::left_after_read(A2::left_after_read(A1::left_after_read(A0::left_after_read(e))))))
    }

    fn from_event(e: &mut Event) -> (r: (A0, A1, A2, A3, A4, A5)) {
        let a0 = A0::from_event(e);
        let a1 = A1::from_event(e);
        let a2 = A2::from_event(e);
        let a3 = A3::from_event(e);
        let a4 = A4::from_event(e);
        let a5 = A5::from_event(e);
        (a0, a1, a2, a3, a4, a5)
    }
}

impl<A0: IntoEvent, A1: IntoEvent, A2: IntoEvent, A3: IntoEvent, A4: IntoEvent, A5: IntoEvent> IntoEvent for (A0, A1, A2, A3, A4, A5) {
    open spec fn written_into(self, e: EventView) -> EventView {
        self.5.written_into(self.4.written_into(self.3.written_into(self.2.written_into(self.1.written_into(self.0.written_into(e))))))
    }

    fn into_event(self, e: &mut Event) {
        let (a0, a1, a2, a3, a4, a5) = self;
        a0.into_event(e);
        a1.into_event(e);
        a2.into_event(e);
        a3.into_event(e);
        a4.into_event(e);
        a5.into_event(e);
    }
}

impl<A0: FromEvent, A1: FromEvent, A2: FromEvent, A3: FromEvent, A4: FromEvent, A5: FromEvent, A6: FromEvent> FromEvent for (A0, A1, A2, A3, A4, A5, A6) {
    open spec fn is_read_of(e: EventView, r: (A0, A1, A2, A3, A4, A5, A6)) -> bool {
        &&& A0::is_read_of(e, r.0)
        &&& A1::is_read_of(A0::left_after_read(e), r.1)
        &&& A2::is_read_of(A1::left_after_read(A0::left_after_read(e)), r.2)
        &&& A3::is_read_of(A2::left_after_read(A1::left_after_read(A0::left_after_read(e))), r.3)
        &&& A4::is_read_of(A3::left_after_read(A2::left_after_read(A1::left_after_read(A0::left_after_read(e)))), r.4)
        &&& A5::is_read_of(A4::left_after_read(A3::left_after_read(A2::left_after_read(A1::left_after_read(A0::left_after_read(e))))), r.5)
        &&& A6::is_read_of(A5::left_after_read(A4::left_after_read(A3::left_after_read(A2::left_after_read(A1::left_after_read(A0::left_after_read(e)))))), r.6)
    }

    open spec fn left_after_read(e: EventView) -> EventView {
        A6::left_after_read(A5::left_after_read(A4::left_after_read(A3::left_after_read(A2::left_after_read(A1::left_after_read(A0::left_after_read(e)))))))
    }

    fn from_event(e: &mut Event) -> (r: (A0, A1, A2, A3, A4, A5, A6)) {
        let a0 = A0::from_event(e);
        let a1 = A1::from_event(e);
        let a2 = A2::from_event(e);
        let a3 = A3::from_event(e);
        let a4 = A4::from_event(e);
        let a5 = A5::from_event(e);
        let a6 = A6::from_event(e);
        (a0, a1, a2, a3, a4, a5, a6)
    }
}

impl<A0: IntoEvent, A1: IntoEvent, A2: IntoEvent, A3: IntoEvent, A4: IntoEvent, A5: IntoEvent, A6: IntoEvent> IntoEvent for (A0, A1, A2, A3, A4, A5, A6) {
    open spec fn written_into(self, e: EventView) -> EventView {
        self.6.written_into(self.5.written_into(self.4.written_into(self.3.written_into(self.2.written_into(self.1.written_into(self.0.written_into(e)))))))
    }

    fn into_event(self, e: &mut Event) {
        let (a0, a1, a2, a3, a4, a5, a6) = self;
        a0.into_event(e);
        a1.into_event(e);
        a2.into_event(e);
        a3.into_event(e);
        a4.into_event(e);
        a5.into_event(e);
        a6.into_event(e);
    }
}

impl<A0: FromEvent, A1: FromEvent, A2: FromEvent, A3: FromEvent, A4: FromEvent, A5: FromEvent, A6: FromEvent, A7: FromEvent> FromEvent for (A0, A1, A2, A3, A4, A5, A6, A7) {
    open spec fn is_read_of(e: EventView, r: (A0, A1, A2, A3, A4, A5, A6, A7)) -> bool {
        &&& A0::is_read_of(e, r.0)
        &&& A1::is_read_of(A0::left_after_read(e), r.1)
        &&& A2::is_read_of(A1::left_after_read(A0::left_after_read(e)), r.2)
        &&& A3::is_read_of(A2::left_after_read(A1::left_after_read(A0::left_after_read(e))), r.3)
        &&& A4::is_read_of(A3::left_after_read(A2::left_after_read(A1::left_after_read(A0::left_after_read(e)))), r.4)
        &&& A5::is_read_of(A4::left_after_read(A3::left_after_read(A2::left_after_read(A1::left_after_read(A0::left_after_read(e))))), r.5)
        &&& A6::is_read_of(A5::left_after_read(A4::left_after_read(A3::left_after_read(A2::left_after_read(A1::left_after_read(A0::left_after_read(e)))))), r.6)
        &&& A7::is_read_of(A6::left_after_read(A5::left_after_read(A4::left_after_read(A3::left_after_read(A2::left_after_read(A1::left_after_read(A0::left_after_read(e))))))), r.7)
    }

    open spec fn left_after_read(e: EventView) -> EventView {
        A7::left_after_read(A6::left_after_read(A5::left_after_read(A4::left_after_read(A3::left_after_read(A2::left_after_read(A1::left_after_read(A0::left_after_read(e))))))))
    }

    fn from_event(e: &mut Event) -> (r: (A0, A1, A2, A3, A4, A5, A6, A7)) {
        let a0 = A0::from_event(e);
        let a1 = A1::from_event(e);
        let a2 = A2::from_event(e);
        let a3 = A3::from_event(e);
        let a4 = A4::from_event(e);
        let a5 = A5::from_event(e);
        let a6 = A6::from_event(e);
        let a7 = A7::from_event(e);
        (a0, a1, a2, a3, a4, a5, a6, a7)
    }
}

impl<A0: IntoEvent, A1: IntoEvent, A2: IntoEvent, A3: IntoEvent, A4: IntoEvent, A5: IntoEvent, A6: IntoEvent, A7: IntoEvent> IntoEvent for (A0, A1, A2, A3, A4, A5, A6, A7) {
    open spec fn written_into(self, e: EventView) -> EventView {
        self.7.written_into(self.6.written_into(self.5.written_into(self.4.written_into(self.3.written_into(self.2.written_into(self.1.written_into(self.0.written_into(e))))))))
    }

    fn into_event(self, e: &mut Event) {
        let (a0, a1, a2, a3, a4, a5, a6, a7) = self;
        a0.into_event(e);
        a1.into_event(e);
        a2.into_event(e);
        a3.into_event(e);
        a4.into_event(e);
        a5.into_event(e);
        a6.into_event(e);
        a7.into_event(e);
    }
}

impl<A0: FromEvent, A1: FromEvent, A2: FromEvent, A3: FromEvent, A4: FromEvent, A5: FromEvent, A6: FromEvent, A7: FromEvent, A8: FromEvent> FromEvent for (A0, A1, A2, A3, A4, A5, A6, A7, A8) {
    open spec fn is_read_of(e: EventView, r: (A0, A1, A2, A3, A4, A5, A6, A7, A8)) -> bool {
        &&& A0::is_read_of(e, r.0)
        &&& A1::is_read_of(A0::left_after_read(e), r.1)
        &&& A2::is_read_of(A1::left_after_read(A0::left_after_read(e)), r.2)
        &&& A3::is_read_of(A2::left_after_read(A1::left_after_read(A0::left_after_read(e))), r.3)
        &&& A4::is_read_of(A3::left_after_read(A2::left_after_read(A1::left_after_read(A0::left_after_read(e)))), r.4)
        &&& A5::is_read_of(A4::left_after_read(A3::left_after_read(A2::left_after_read(A1::left_after_read(A0::left_after_read(e))))), r.5)
        &&& A6::is_read_of(A5::left_after_read(A4::left_after_read(A3::left_after_read(A2::left_after_read(A1::left_after_read(A0::left_after_read(e)))))), r.6)
        &&& A7::is_read_of(A6::left_after_read(A5::left_after_read(A4::left_after_read(A3::left_after_read(A2::left_after_read(A1::left_after_read(A0::left_after_read(e))))))), r.7)
        &&& A8::is_read_of(A7::left_after_read(A6::left_after_read(A5::left_after_read(A4::left_after_read(A3::left_after_read(A2::left_after_read(A1::left_after_read(A0::left_after_read(e)))))))), r.8)
    }

    open spec fn left_after_read(e: EventView) -> EventView {
        A8::left_after_read(A7::left_after_read(A6::left_after_read(A5::left_after_read(A4::left_after_read(A3::left_after_read(A2::left_after_read(A1::left_after_read(A0::left_after_read(e)))))))))
    }

    fn from_event(e: &mut Event) -> (r: (A0, A1, A2, A3, A4, A5, A6, A7, A8)) {
        let a0 = A0::from_event(e);
        let a1 = A1::from_event(e);
        let a2 = A2::from_event(e);
        let a3 = A3::from_event(e);
        let a4 = A4::from_event(e);
        let a5 = A5::from_event(e);
        let a6 = A6::from_event(e);
        let a7 = A7::from_event(e);
        let a8 = A8::from_event(e);
        (a0, a1, a2, a3, a4, a5, a6, a7, a8)
    }
}

impl<A0: IntoEvent, A1: IntoEvent, A2: IntoEvent, A3: IntoEvent, A4: IntoEvent, A5: IntoEvent, A6: IntoEvent, A7: IntoEvent, A8: IntoEvent> IntoEvent for (A0, A1, A2, A3, A4, A5, A6, A7, A8) {
    open spec fn written_into(self, e: EventView) -> EventView {
        self.8.written_into(self.7.written_into(self.6.written_into(self.5.written_into(self.4.written_into(self.3.written_into(self.2.written_into(self.1.written_into(self.0.written_into(e)))))))))
    }

    fn into_event(self, e: &mut Event) {
        let (a0, a1, a2, a3, a4, a5, a6, a7, a8) = self;
        a0.into_event(e);
        a1.into_event(e);
        a2.into_event(e);
        a3.into_event(e);
        a4.into_event(e);
        a5.into_event(e);
        a6.into_event(e);
        a7.into_event(e);
        a8.into_event(e);
    }
}

impl<A0: FromEvent, A1: FromEvent, A2: FromEvent, A3: FromEvent, A4: FromEvent, A5: FromEvent, A6: FromEvent, A7: FromEvent, A8: FromEvent, A9: FromEvent> FromEvent for (A0, A1, A2, A3, A4, A5, A6, A7, A8, A9) {
    open spec fn is_read_of(e: EventView, r: (A0, A1, A2, A3, A4, A5, A6, A7, A8, A9)) -> bool {
        &&& A0::is_read_of(e, r.0)
        &&& A1::is_read_of(A0::left_after_read(e), r.1)
        &&& A2::is_read_of(A1::left_after_read(A0::left_after_read(e)), r.2)
        &&& A3::is_read_of(A2::left_after_read(A1::left_after_read(A0::left_after_read(e))), r.3)
        &&& A4::is_read_of(A3::left_after_read(A2::left_after_read(A1::left_after_read(A0::left_after_read(e)))), r.4)
        &&& A5::is_read_of(A4::left_after_read(A3::left_after_read(A2::left_after_read(A1::left_after_read(A0::left_after_read(e))))), r.5)
        &&& A6::is_read_of(A5::left_after_read(A4::left_after_read(A3::left_after_read(A2::left_after_read(A1::left_after_read(A0::left_after_read(e)))))), r.6)
        &&& A7::is_read_of(A6::left_after_read(A5::left_after_read(A4::left_after_read(A3::left_after_read(A2::left_after_read(A1::left_after_read(A0::left_after_read(e))))))), r.7)
        &&& A8::is_read_of(A7::left_after_read(A6::left_after_read(A5::left_after_read(A4::left_after_read(A3::left_after_read(A2::left_after_read(A1::left_after_read(A0::left_after_read(e)))))))), r.8)
        &&& A9::is_read_of(A8::left_after_read(A7::left_after_read(A6::left_after_read(A5::left_after_read(A4::left_after_read(A3::left_after_read(A2::left_after_read(A1::left_after_read(A0::left_after_read(e))))))))), r.9)
    }

    open spec fn left_after_read(e: EventView) -> EventView {
        A9::left_after_read(A8::left_after_read(A7::left_after_read(A6::left_after_read(A5::left_after_read(A4::left_after_read(A3::left_after_read(A2::left_after_read(A1::left_after_read(A0::left_after_read(e))))))))))
    }

    fn from_event(e: &mut Event) -> (r: (A0, A1, A2, A3, A4, A5, A6, A7, A8, A9)) {
        let a0 = A0::from_event(e);
        let a1 = A1::from_event(e);
        let a2 = A2::from_event(e);
        let a3 = A3::from_event(e);
        let a4 = A4::from_event(e);
        let a5 = A5::from_event(e);
        let a6 = A6::from_event(e);
        let a7 = A7::from_event(e);
        let a8 = A8::from_event(e);
        let a9 = A9::from_event(e);
        (a0, a1, a2, a3, a4, a5, a6, a7, a8, a9)
    }
}

impl<A0: IntoEvent, A1: IntoEvent, A2: IntoEvent, A3: IntoEvent, A4: IntoEvent, A5: IntoEvent, A6: IntoEvent, A7: IntoEvent, A8: IntoEvent, A9: IntoEvent> IntoEvent for (A0, A1, A2, A3, A4, A5, A6, A7, A8, A9) {
    open spec fn written_into(self, e: EventView) -> EventView {
        self.9.written_into(self.8.written_into(self.7.written_into(self.6.written_into(self.5.written_into(self.4.written_into(self.3.written_into(self.2.written_into(self.1.written_into(self.0.written_into(e))))))))))
    }

    fn into_event(self, e: &mut Event) {
        let (a0, a1, a2, a3, a4, a5, a6, a7, a8, a9) = self;
        a0.into_event(e);
        a1.into_event(e);
        a2.into_event(e);
        a3.into_event(e);
        a4.into_event(e);
        a5.into_event(e);
        a6.into_event(e);
        a7.into_event(e);
        a8.into_event(e);
        a9.into_event(e);
    }
}

impl<A0: FromEvent, A1: FromEvent, A2: FromEvent, A3: FromEvent, A4: FromEvent, A5: FromEvent, A6: FromEvent, A7: FromEvent, A8: FromEvent, A9: FromEvent, A10: FromEvent> FromEvent for (A0, A1, A2, A3, A4, A5, A6, A7, A8, A9, A10) {
    open spec fn is_read_of(e: EventView, r: (A0, A1, A2, A3, A4, A5, A6, A7, A8, A9, A10)) -> bool {
        &&& A0::is_read_of(e, r.0)
        &&& A1::is_read_of(A0::left_after_read(e), r.1)
        &&& A2::is_read_of(A1::left_after_read(A0::left_after_read(e)), r.2)
        &&& A3::is_read_of(A2::left_after_read(A1::left_after_read(A0::left_after_read(e))), r.3)
        &&& A4::is_read_of(A3::left_after_read(A2::left_after_read(A1::left_after_read(A0::left_after_read(e)))), r.4)
        &&& A5::is_read_of(A4::left_after_read(A3::left_after_read(A2::left_after_read(A1::left_after_read(A0::left_after_read(e))))), r.5)
        &&& A6::is_read_of(A5::left_after_read(A4::left_after_read(A3::left_after_read(A2::left_after_read(A1::left_after_read(A0::left_after_read(e)))))), r.6)
        &&& A7::is_read_of(A6::left_after_read(A5::left_after_read(A4::left_after_read(A3::left_after_read(A2::left_after_read(A1::left_after_read(A0::left_after_read(e))))))), r.7)
        &&& A8::is_read_of(A7::left_after_read(A6::left_after_read(A5::left_after_read(A4::left_after_read(A3::left_after_read(A2::left_after_read(A1::left_after_read(A0::left_after_read(e)))))))), r.8)
        &&& A9::is_read_of(A8::left_after_read(A7::left_after_read(A6::left_after_read(A5::left_after_read(A4::left_after_read(A3::left_after_read(A2::left_after_read(A1::left_after_read(A0::left_after_read(e))))))))), r.9)
        &&& A10::is_read_of(A9::left_after_read(A8::left_after_read(A7::left_after_read(A6::left_after_read(A5::left_after_read(A4::left_after_read(A3::left_after_read(A2::left_after_read(A1::left_after_read(A0::left_after_read(e)))))))))), r.10)
    }

    open spec fn left_after_read(e: EventView) -> EventView {
        A10::left_after_read(A9::left_after_read(A8::left_after_read(A7::left_after_read(A6::left_after_read(A5::left_after_read(A4::left_after_read(A3::left_after_read(A2::left_after_read(A1::left_after_read(A0::left_after_read(e)))))))))))
    }

    fn from_event(e: &mut Event) -> (r: (A0, A1, A2, A3, A4, A5, A6, A7, A8, A9, A10)) {
        let a0 = A0::from_event(e);
        let a1 = A1::from_event(e);
        let a2 = A2::from_event(e);
        let a3 = A3::from_event(e);
        let a4 = A4::from_event(e);
        let a5 = A5::from_event(e);
        let a6 = A6::from_event(e);
        let a7 = A7::from_event(e);
        let a8 = A8::from_event(e);
        let a9 = A9::from_event(e);
        let a10 = A10::from_event(e);
        (a0, a1, a2, a3, a4, a5, a6, a7, a8, a9, a10)
    }
}

impl<A0: IntoEvent, A1: IntoEvent, A2: IntoEvent, A3: IntoEvent, A4: IntoEvent, A5: IntoEvent, A6: IntoEvent, A7: IntoEvent, A8: IntoEvent, A9: IntoEvent, A10: IntoEvent> IntoEvent for (A0, A1, A2, A3, A4, A5, A6, A7, A8, A9, A10) {
    open spec fn written_into(self, e: EventView) -> EventView {
        self.10.written_into(self.9.written_into(self.8.written_into(self.7.written_into(self.6.written_into(self.5.written_into(self.4.written_into(self.3.written_into(self.2.written_into(self.1.written_into(self.0.written_into(e)))))))))))
    }

    fn into_event(self, e: &mut Event) {
        let (a0, a1, a2, a3, a4, a5, a6, a7, a8, a9, a10) = self;
        a0.into_event(e);
        a1.into_event(e);
        a2.into_event(e);
        a3.into_event(e);
        a4.into_event(e);
        a5.into_event(e);
        a6.into_event(e);
        a7.into_event(e);
        a8.into_event(e);
        a9.into_event(e);
        a10.into_event(e);
    }
}

impl<A0: FromEvent, A1: FromEvent, A2: FromEvent, A3: FromEvent, A4: FromEvent, A5: FromEvent, A6: FromEvent, A7: FromEvent, A8: FromEvent, A9: FromEvent, A10: FromEvent, A11: FromEvent> FromEvent for (A0, A1, A2, A3, A4, A5, A6, A7, A8, A9, A10, A11) {
    open spec fn is_read_of(e: EventView, r: (A0, A1, A2, A3, A4, A5, A6, A7, A8, A9, A10, A11)) -> bool {
        &&& A0::is_read_of(e, r.0)
        &&& A1::is_read_of(A0::left_after_read(e), r.1)
        &&& A2::is_read_of(A1::left_after_read(A0::left_after_read(e)), r.2)
        &&& A3::is_read_of(A2::left_after_read(A1::left_after_read(A0::left_after_read(e))), r.3)
        &&& A4::is_read_of(A3::left_after_read(A2::left_after_read(A1::left_after_read(A0::left_after_read(e)))), r.4)
        &&& A5::is_read_of(A4::left_after_read(A3::left_after_read(A2::left_after_read(A1::left_after_read(A0::left_after_read(e))))), r.5)
        &&& A6::is_read_of(A5::left_after_read(A4::left_after_read(A3::left_after_read(A2::left_after_read(A1::left_after_read(A0::left_after_read(e)))))), r.6)
        &&& A7::is_read_of(A6::left_after_read(A5::left_after_read(A4::left_after_read(A3::left_after_read(A2::left_after_read(A1::left_after_read(A0::left_after_read(e))))))), r.7)
        &&& A8::is_read_of(A7::left_after_read(A6::left_after_read(A5::left_after_read(A4::left_after_read(A3::left_after_read(A2::left_after_read(A1::left_after_read(A0::left_after_read(e)))))))), r.8)
        &&& A9::is_read_of(A8::left_after_read(A7::left_after_read(A6::left_after_read(A5::left_after_read(A4::left_after_read(A3::left_after_read(A2::left_after_read(A1::left_after_read(A0::left_after_read(e))))))))), r.9)
        &&& A10::is_read_of(A9::left_after_read(A8::left_after_read(A7::left_after_read(A6::left_after_read(A5::left_after_read(A4::left_after_read(A3::left_after_read(A2::left_after_read(A1::left_after_read(A0::left_after_read(e)))))))))), r.10)
        &&& A11::is_read_of(A10::left_after_read(A9::left_after_read(A8::left_after_read(A7::left_after_read(A6::left_after_read(A5::left_after_read(A4::left_after_read(A3::left_after_read(A2::left_after_read(A1::left_after_read(A0::left_after_read(e))))))))))), r.11)
    }

    open spec fn left_after_read(e: EventView) -> EventView {
        A11::left_after_read(A10::left_after_read(A9::left_after_read(A8::left_after_read(A7::left_after_read(A6::left_after_read(A5::left_after_read(A4::left_after_read(A3::left_after_read(A2::left_after_read(A1::left_after_read(A0::left_after_read(e))))))))))))
    }

    fn from_event(e: &mut Event) -> (r: (A0, A1, A2, A3, A4, A5, A6, A7, A8, A9, A10, A11)) {
        let a0 = A0::from_event(e);
        let a1 = A1::from_event(e);
        let a2 = A2::from_event(e);
        let a3 = A3::from_event(e);
        let a4 = A4::from_event(e);
        let a5 = A5::from_event(e);
        let a6 = A6::from_event(e);
        let a7 = A7::from_event(e);
        let a8 = A8::from_event(e);
        let a9 = A9::from_event(e);
        let a10 = A10::from_event(e);
        let a11 = A11::from_event(e);
        (a0, a1, a2, a3, a4, a5, a6, a7, a8, a9, a10, a11)
    }
}

impl<A0: IntoEvent, A1: IntoEvent, A2: IntoEvent, A3: IntoEvent, A4: IntoEvent, A5: IntoEvent, A6: IntoEvent, A7: IntoEvent, A8: IntoEvent, A9: IntoEvent, A10: IntoEvent, A11: IntoEvent> IntoEvent for (A0, A1, A2, A3, A4, A5, A6, A7, A8, A9, A10, A11) {
    open spec fn written_into(self, e: EventView) -> EventView {
        self.11.written_into(self.10.written_into(self.9.written_into(self.8.written_into(self.7.written_into(self.6.written_into(self.5.written_into(self.4.written_into(self.3.written_into(self.2.written_into(self.1.written_into(self.0.written_into(e))))))))))))
    }

    fn into_event(self, e: &mut Event) {
        let (a0, a1, a2, a3, a4, a5, a6, a7, a8, a9, a10, a11) = self;
        a0.into_event(e);
        a1.into_event(e);
        a2.into_event(e);
        a3.into_event(e);
        a4.into_event(e);
        a5.into_event(e);
        a6.into_event(e);
        a7.into_event(e);
        a8.into_event(e);
        a9.into_event(e);
        a10.into_event(e);
        a11.into_event(e);
    }
}

impl<A0: FromEvent, A1: FromEvent, A2: FromEvent, A3: FromEvent, A4: FromEvent, A5: FromEvent, A6: FromEvent, A7: FromEvent, A8: FromEvent, A9: FromEvent, A10: FromEvent, A11: FromEvent, A12: FromEvent> FromEvent for (A0, A1, A2, A3, A4, A5, A6, A7, A8, A9, A10, A11, A12) {
    open spec fn is_read_of(e: EventView, r: (A0, A1, A2, A3, A4, A5, A6, A7, A8, A9, A10, A11, A12)) -> bool {
        &&& A0::is_read_of(e, r.0)
        &&& A1::is_read_of(A0::left_after_read(e), r.1)
        &&& A2::is_read_of(A1::left_after_read(A0::left_after_read(e)), r.2)
        &&& A3::is_read_of(A2::left_after_read(A1::left_after_read(A0::left_after_read(e))), r.3)
        &&& A4::is_read_of(A3::left_after_read(A2::left_after_read(A1::left_after_read(A0::left_after_read(e)))), r.4)
        &&& A5::is_read_of(A4::left_after_read(A3::left_after_read(A2::left_after_read(A1::left_after_read(A0::left_after_read(e))))), r.5)
        &&& A6::is_read_of(A5::left_after_read(A4::left_after_read(A3::left_after_read(A2::left_after_read(A1::left_after_read(A0::left_after_read(e)))))), r.6)
        &&& A7::is_read_of(A6::left_after_read(A5::left_after_read(A4::left_after_read(A3::left_after_read(A2::left_after_read(A1::left_after_read(A0::left_after_read(e))))))), r.7)
        &&& A8::is_read_of(A7::left_after_read(A6::left_after_read(A5::left_after_read(A4::left_after_read(A3::left_after_read(A2::left_after_read(A1::left_after_read(A0::left_after_read(e)))))))), r.8)
        &&& A9::is_read_of(A8::left_after_read(A7::left_after_read(A6::left_after_read(A5::left_after_read(A4::left_after_read(A3::left_after_read(A2::left_after_read(A1::left_after_read(A0::left_after_read(e))))))))), r.9)
        &&& A10::is_read_of(A9::left_after_read(A8::left_after_read(A7::left_after_read(A6::left_after_read(A5::left_after_read(A4::left_after_read(A3::left_after_read(A2::left_after_read(A1::left_after_read(A0::left_after_read(e)))))))))), r.10)
        &&& A11::is_read_of(A10::left_after_read(A9::left_after_read(A8::left_after_read(A7::left_after_read(A6::left_after_read(A5::left_after_read(A4::left_after_read(A3::left_after_read(A2::left_after_read(A1::left_after_read(A0::left_after_read(e))))))))))), r.11)
        &&& A12::is_read_of(A11::left_after_read(A10::left_after_read(A9::left_after_read(A8::left_after_read(A7::left_after_read(A6::left_after_read(A5::left_after_read(A4::left_after_read(A3::left_after_read(A2::left_after_read(A1::left_after_read(A0::left_after_read(e)))))))))))), r.12)
    }

    open spec fn left_after_read(e: EventView) -> EventView {
        A12::left_after_read(A11::left_after_read(A10::left_after_read(A9::left_after_read(A8::left_after_read(A7::left_after_read(A6::left_after_read(A5::left_after_read(A4::left_after_read(A3::left_after_read(A2::left_after_read(A1::left_after_read(A0::left_after_read(e)))))))))))))
    }

    fn from_event(e: &mut Event) -> (r: (A0, A1, A2, A3, A4, A5, A6, A7, A8, A9, A10, A11, A12)) {
        let a0 = A0::from_event(e);
        let a1 = A1::from_event(e);
        let a2 = A2::from_event(e);
        let a3 = A3::from_event(e);
        let a4 = A4::from_event(e);
        let a5 = A5::from_event(e);
        let a6 = A6::from_event(e);
        let a7 = A7::from_event(e);
        let a8 = A8::from_event(e);
        let a9 = A9::from_event(e);
        let a10 = A10::from_event(e);
        let a11 = A11::from_event(e);
        let a12 = A12::from_event(e);
        (a0, a1, a2, a3, a4, a5, a6, a7, a8, a9, a10, a11, a12)
    }
}

impl<A0: IntoEvent, A1: IntoEvent, A2: IntoEvent, A3: IntoEvent, A4: IntoEvent, A5: IntoEvent, A6: IntoEvent, A7: IntoEvent, A8: IntoEvent, A9: IntoEvent, A10: IntoEvent, A11: IntoEvent, A12: IntoEvent> IntoEvent for (A0, A1, A2, A3, A4, A5, A6, A7, A8, A9, A10, A11, A12) {
    open spec fn written_into(self, e: EventView) -> EventView {
        self.12.written_into(self.11.written_into(self.10.written_into(self.9.written_into(self.8.written_into(self.7.written_into(self.6.written_into(self.5.written_into(self.4.written_into(self.3.written_into(self.2.written_into(self.1.written_into(self.0.written_into(e)))))))))))))
    }

    fn into_event(self, e: &mut Event) {
        let (a0, a1, a2, a3, a4, a5, a6, a7, a8, a9, a10, a11, a12) = self;
        a0.into_event(e);
        a1.into_event(e);
        a2.into_event(e);
        a3.into_event(e);
        a4.into_event(e);
        a5.into_event(e);
        a6.into_event(e);
        a7.into_event(e);
        a8.into_event(e);
        a9.into_event(e);
        a10.into_event(e);
        a11.into_event(e);
        a12.into_event(e);
    }
}

impl<A0: FromEvent, A1: FromEvent, A2: FromEvent, A3: FromEvent, A4: FromEvent, A5: FromEvent, A6: FromEvent, A7: FromEvent, A8: FromEvent, A9: FromEvent, A10: FromEvent, A11: FromEvent, A12: FromEvent, A13: FromEvent> FromEvent for (A0, A1, A2, A3, A4, A5, A6, A7, A8, A9, A10, A11, A12, A13) {
    open spec fn is_read_of(e: EventView, r: (A0, A1, A2, A3, A4, A5, A6, A7, A8, A9, A10, A11, A12, A13)) -> bool {
        &&& A0::is_read_of(e, r.0)
        &&& A1::is_read_of(A0::left_after_read(e), r.1)
        &&& A2::is_read_of(A1::left_after_read(A0::left_after_read(e)), r.2)
        &&& A3::is_read_of(A2::left_after_read(A1::left_after_read(A0::left_after_read(e))), r.3)
        &&& A4::is_read_of(A3::left_after_read(A2::left_after_read(A1::left_after_read(A0::left_after_read(e)))), r.4)
        &&& A5::is_read_of(A4::left_after_read(A3::left_after_read(A2::left_after_read(A1::left_after_read(A0::left_after_read(e))))), r.5)
        &&& A6::is_read_of(A5::left_after_read(A4::left_after_read(A3::left_after_read(A2::left_after_read(A1::left_after_read(A0::left_after_read(e)))))), r.6)
        &&& A7::is_read_of(A6::left_after_read(A5::left_after_read(A4::left_after_read(A3::left_after_read(A2::left_after_read(A1::left_after_read(A0::left_after_read(e))))))), r.7)
        &&& A8::is_read_of(A7::left_after_read(A6::left_after_read(A5::left_after_read(A4::left_after_read(A3::left_after_read(A2::left_after_read(A1::left_after_read(A0::left_after_read(e)))))))), r.8)
        &&& A9::is_read_of(A8::left_after_read(A7::left_after_read(A6::left_after_read(A5::left_after_read(A4::left_after_read(A3::left_after_read(A2::left_after_read(A1::left_after_read(A0::left_after_read(e))))))))), r.9)
        &&& A10::is_read_of(A9::left_after_read(A8::left_after_read(A7::left_after_read(A6::left_after_read(A5::left_after_read(A4::left_after_read(A3::left_after_read(A2::left_after_read(A1::left_after_read(A0::left_after_read(e)))))))))), r.10)
        &&& A11::is_read_of(A10::left_after_read(A9::left_after_read(A8::left_after_read(A7::left_after_read(A6::left_after_read(A5::left_after_read(A4::left_after_read(A3::left_after_read(A2::left_after_read(A1::left_after_read(A0::left_after_read(e))))))))))), r.11)
        &&& A12::is_read_of(A11::left_after_read(A10::left_after_read(A9::left_after_read(A8::left_after_read(A7::left_after_read(A6::left_after_read(A5::left_after_read(A4::left_after_read(A3::left_after_read(A2::left_after_read(A1::left_after_read(A0::left_after_read(e)))))))))))), r.12)
        &&& A13::is_read_of(A12::left_after_read(A11::left_after_read(A10::left_after_read(A9::left_after_read(A8::left_after_read(A7::left_after_read(A6::left_after_read(A5::left_after_read(A4::left_after_read(A3::left_after_read(A2::left_after_read(A1::left_after_read(A0::left_after_read(e))))))))))))), r.13)
    }

    open spec fn left_after_read(e: EventView) -> EventView {
        A13::left_after_read(A12::left_after_read(A11::left_after_read(A10::left_after_read(A9::left_after_read(A8::left_after_read(A7::left_after_read(A6::left_after_read(A5::left_after_read(A4::left_after_read(A3::left_after_read(A2::left_after_read(A1::left_after_read(A0::left_after_read(e))))))))))))))
    }

    fn from_event(e: &mut Event) -> (r: (A0, A1, A2, A3, A4, A5, A6, A7, A8, A9, A10, A11, A12, A13)) {
        let a0 = A0::from_event(e);
        let a1 = A1::from_event(e);
        let a2 = A2::from_event(e);
        let a3 = A3::from_event(e);
        let a4 = A4::from_event(e);
        let a5 = A5::from_event(e);
        let a6 = A6::from_event(e);
        let a7 = A7::from_event(e);
        let a8 = A8::from_event(e);
        let a9 = A9::from_event(e);
        let a10 = A10::from_event(e);
        let a11 = A11::from_event(e);
        let a12 = A12::from_event(e);
        let a13 = A13::from_event(e);
        (a0, a1, a2, a3, a4, a5, a6, a7, a8, a9, a10, a11, a12, a13)
    }
}

impl<A0: IntoEvent, A1: IntoEvent, A2: IntoEvent, A3: IntoEvent, A4: IntoEvent, A5: IntoEvent, A6: IntoEvent, A7: IntoEvent, A8: IntoEvent, A9: IntoEvent, A10: IntoEvent, A11: IntoEvent, A12: IntoEvent, A13: IntoEvent> IntoEvent for (A0, A1, A2, A3, A4, A5, A6, A7, A8, A9, A10, A11, A12, A13) {
    open spec fn written_into(self, e: EventView) -> EventView {
        self.13.written_into(self.12.written_into(self.11.written_into(self.10.written_into(self.9.written_into(self.8.written_into(self.7.written_into(self.6.written_into(self.5.written_into(self.4.written_into(self.3.written_into(self.2.written_into(self.1.written_into(self.0.written_into(e))))))))))))))
    }

    fn into_event(self, e: &mut Event) {
        let (a0, a1, a2, a3, a4, a5, a6, a7, a8, a9, a10, a11, a12, a13) = self;
        a0.into_event(e);
        a1.into_event(e);
        a2.into_event(e);
        a3.into_event(e);
        a4.into_event(e);
        a5.into_event(e);
        a6.into_event(e);
        a7.into_event(e);
        a8.into_event(e);
        a9.into_event(e);
        a10.into_event(e);
        a11.into_event(e);
        a12.into_event(e);
        a13.into_event(e);
    }
}

impl<A0: FromEvent, A1: FromEvent, A2: FromEvent, A3: FromEvent, A4: FromEvent, A5: FromEvent, A6: FromEvent, A7: FromEvent, A8: FromEvent, A9: FromEvent, A10: FromEvent, A11: FromEvent, A12: FromEvent, A13: FromEvent, A14: FromEvent> FromEvent for (A0, A1, A2, A3, A4, A5, A6, A7, A8, A9, A10, A11, A12, A13, A14) {
    open spec fn is_read_of(e: EventView, r: (A0, A1, A2, A3, A4, A5, A6, A7, A8, A9, A10, A11, A12, A13, A14)) -> bool {
        &&& A0::is_read_of(e, r.0)
        &&& A1::is_read_of(A0::left_after_read(e), r.1)
        &&& A2::is_read_of(A1::left_after_read(A0::left_after_read(e)), r.2)
        &&& A3::is_read_of(A2::left_after_read(A1::left_after_read(A0::left_after_read(e))), r.3)
        &&& A4::is_read_of(A3::left_after_read(A2::left_after_read(A1::left_after_read(A0::left_after_read(e)))), r.4)
        &&& A5::is_read_of(A4::left_after_read(A3::left_after_read(A2::left_after_read(A1::left_after_read(A0::left_after_read(e))))), r.5)
        &&& A6::is_read_of(A5::left_after_read(A4::left_after_read(A3::left_after_read(A2::left_after_read(A1::left_after_read(A0::left_after_read(e)))))), r.6)
        &&& A7::is_read_of(A6::left_after_read(A5::left_after_read(A4::left_after_read(A3::left_after_read(A2::left_after_read(A1::left_after_read(A0::left_after_read(e))))))), r.7)
        &&& A8::is_read_of(A7::left_after_read(A6::left_after_read(A5::left_after_read(A4::left_after_read(A3::left_after_read(A2::left_after_read(A1::left_after_read(A0::left_after_read(e)))))))), r.8)
        &&& A9::is_read_of(A8::left_after_read(A7::left_after_read(A6::left_after_read(A5::left_after_read(A4::left_after_read(A3::left_after_read(A2::left_after_read(A1::left_after_read(A0::left_after_read(e))))))))), r.9)
        &&& A10::is_read_of(A9::left_after_read(A8::left_after_read(A7::left_after_read(A6::left_after_read(A5::left_after_read(A4::left_after_read(A3::left_after_read(A2::left_after_read(A1::left_after_read(A0::left_after_read(e)))))))))), r.10)
        &&& A11::is_read_of(A10::left_after_read(A9::left_after_read(A8::left_after_read(A7::left_after_read(A6::left_after_read(A5::left_after_read(A4::left_after_read(A3::left_after_read(A2::left_after_read(A1::left_after_read(A0::left_after_read(e))))))))))), r.11)
        &&& A12::is_read_of(A11::left_after_read(A10::left_after_read(A9::left_after_read(A8::left_after_read(A7::left_after_read(A6::left_after_read(A5::left_after_read(A4::left_after_read(A3::left_after_read(A2::left_after_read(A1::left_after_read(A0::left_after_read(e)))))))))))), r.12)
        &&& A13::is_read_of(A12::left_after_read(A11::left_after_read(A10::left_after_read(A9::left_after_read(A8::left_after_read(A7::left_after_read(A6::left_after_read(A5::left_after_read(A4::left_after_read(A3::left_after_read(A2::left_after_read(A1::left_after_read(A0::left_after_read(e))))))))))))), r.13)
        &&& A14::is_read_of(A13::left_after_read(A12::left_after_read(A11::left_after_read(A10::left_after_read(A9::left_after_read(A8::left_after_read(A7::left_after_read(A6::left_after_read(A5::left_after_read(A4::left_after_read(A3::left_after_read(A2::left_after_read(A1::left_after_read(A0::left_after_read(e)))))))))))))), r.14)
    }

    open spec fn left_after_read(e: EventView) -> EventView {
        A14::left_after_read(A13::left_after_read(A12::left_after_read(A11::left_after_read(A10::left_after_read(A9::left_after_read(A8::left_after_read(A7::left_after_read(A6::left_after_read(A5::left_after_read(A4::left_after_read(A3::left_after_read(A2::left_after_read(A1::left_after_read(A0::left_after_read(e)))))))))))))))
    }

    fn from_event(e: &mut Event) -> (r: (A0, A1, A2, A3, A4, A5, A6, A7, A8, A9, A10, A11, A12, A13, A14)) {
        let a0 = A0::from_event(e);
        let a1 = A1::from_event(e);
        let a2 = A2::from_event(e);
        let a3 = A3::from_event(e);
        let a4 = A4::from_event(e);
        let a5 = A5::from_event(e);
        let a6 = A6::from_event(e);
        let a7 = A7::from_event(e);
        let a8 = A8::from_event(e);
        let a9 = A9::from_event(e);
        let a10 = A10::from_event(e);
        let a11 = A11::from_event(e);
        let a12 = A12::from_event(e);
        let a13 = A13::from_event(e);
        let a14 = A14::from_event(e);
        (a0, a1, a2, a3, a4, a5, a6, a7, a8, a9, a10, a11, a12, a13, a14)
    }
}

impl<A0: IntoEvent, A1: IntoEvent, A2: IntoEvent, A3: IntoEvent, A4: IntoEvent, A5: IntoEvent, A6: IntoEvent, A7: IntoEvent, A8: IntoEvent, A9: IntoEvent, A10: IntoEvent, A11: IntoEvent, A12: IntoEvent, A13: IntoEvent, A14: IntoEvent> IntoEvent for (A0, A1, A2, A3, A4, A5, A6, A7, A8, A9, A10, A11, A12, A13, A14) {
    open spec fn written_into(self, e: EventView) -> EventView {
        self.14.written_into(self.13.written_into(self.12.written_into(self.11.written_into(self.10.written_into(self.9.written_into(self.8.written_into(self.7.written_into(self.6.written_into(self.5.written_into(self.4.written_into(self.3.written_into(self.2.written_into(self.1.written_into(self.0.written_into(e)))))))))))))))
    }

    fn into_event(self, e: &mut Event) {
        let (a0, a1, a2, a3, a4, a5, a6, a7, a8, a9, a10, a11, a12, a13, a14) = self;
        a0.into_event(e);
        a1.into_event(e);
        a2.into_event(e);
        a3.into_event(e);
        a4.into_event(e);
        a5.into_event(e);
        a6.into_event(e);
        a7.into_event(e);
        a8.into_event(e);
        a9.into_event(e);
        a10.into_event(e);
        a11.into_event(e);
        a12.into_event(e);
        a13.into_event(e);
        a14.into_event(e);
    }
}

impl<A0: FromEvent, A1: FromEvent, A2: FromEvent, A3: FromEvent, A4: FromEvent, A5: FromEvent, A6: FromEvent, A7: FromEvent, A8: FromEvent, A9: FromEvent, A10: FromEvent, A11: FromEvent, A12: FromEvent, A13: FromEvent, A14: FromEvent, A15: FromEvent> FromEvent for (A0, A1, A2, A3, A4, A5, A6, A7, A8, A9, A10, A11, A12, A13, A14, A15) {
    open spec fn is_read_of(e: EventView, r: (A0, A1, A2, A3, A4, A5, A6, A7, A8, A9, A10, A11, A12, A13, A14, A15)) -> bool {
        &&& A0::is_read_of(e, r.0)
        &&& A1::is_read_of(A0::left_after_read(e), r.1)
        &&& A2::is_read_of(A1::left_after_read(A0::left_after_read(e)), r.2)
        &&& A3::is_read_of(A2::left_after_read(A1::left_after_read(A0::left_after_read(e))), r.3)
        &&& A4::is_read_of(A3::left_after_read(A2::left_after_read(A1::left_after_read(A0::left_after_read(e)))), r.4)
        &&& A5::is_read_of(A4::left_after_read(A3::left_after_read(A2::left_after_read(A1::left_after_read(A0::left_after_read(e))))), r.5)
        &&& A6::is_read_of(A5::left_after_read(A4::left_after_read(A3::left_after_read(A2::left_after_read(A1::left_after_read(A0::left_after_read(e)))))), r.6)
        &&& A7::is_read_of(A6::left_after_read(A5::left_after_read(A4::left_after_read(A3::left_after_read(A2::left_after_read(A1::left_after_read(A0::left_after_read(e))))))), r.7)
        &&& A8::is_read_of(A7::left_after_read(A6::left_after_read(A5::left_after_read(A4::left_after_read(A3::left_after_read(A2::left_after_read(A1::left_after_read(A0::left_after_read(e)))))))), r.8)
        &&& A9::is_read_of(A8::left_after_read(A7::left_after_read(A6::left_after_read(A5::left_after_read(A4::left_after_read(A3::left_after_read(A2::left_after_read(A1::left_after_read(A0::left_after_read(e))))))))), r.9)
        &&& A10::is_read_of(A9::left_after_read(A8::left_after_read(A7::left_after_read(A6::left_after_read(A5::left_after_read(A4::left_after_read(A3::left_after_read(A2::left_after_read(A1::left_after_read(A0::left_after_read(e)))))))))), r.10)
        &&& A11::is_read_of(A10::left_after_read(A9::left_after_read(A8::left_after_read(A7::left_after_read(A6::left_after_read(A5::left_after_read(A4::left_after_read(A3::left_after_read(A2::left_after_read(A1::left_after_read(A0::left_after_read(e))))))))))), r.11)
        &&& A12::is_read_of(A11::left_after_read(A10::left_after_read(A9::left_after_read(A8::left_after_read(A7::left_after_read(A6::left_after_read(A5::left_after_read(A4::left_after_read(A3::left_after_read(A2::left_after_read(A1::left_after_read(A0::left_after_read(e)))))))))))), r.12)
        &&& A13::is_read_of(A12::left_after_read(A11::left_after_read(A10::left_after_read(A9::left_after_read(A8::left_after_read(A7::left_after_read(A6::left_after_read(A5::left_after_read(A4::left_after_read(A3::left_after_read(A2::left_after_read(A1::left_after_read(A0::left_after_read(e))))))))))))), r.13)
        &&& A14::is_read_of(A13::left_after_read(A12::left_after_read(A11::left_after_read(A10::left_after_read(A9::left_after_read(A8::left_after_read(A7::left_after_read(A6::left_after_read(A5::left_after_read(A4::left_after_read(A3::left_after_read(A2::left_after_read(A1::left_after_read(A0::left_after_read(e)))))))))))))), r.14)
        &&& A15::is_read_of(A14::left_after_read(A13::left_after_read(A12::left_after_read(A11::left_after_read(A10::left_after_read(A9::left_after_read(A8::left_after_read(A7::left_after_read(A6::left_after_read(A5::left_after_read(A4::left_after_read(A3::left_after_read(A2::left_after_read(A1::left_after_read(A0::left_after_read(e))))))))))))))), r.15)
    }

    open spec fn left_after_read(e: EventView) -> EventView {
        A15::left_after_read(A14::left_after_read(A13::left_after_read(A12::left_after_read(A11::left_after_read(A10::left_after_read(A9::left_after_read(A8::left_after_read(A7::left_after_read(A6::left_after_read(A5::left_after_read(A4::left_after_read(A3::left_after_read(A2::left_after_read(A1::left_after_read(A0::left_after_read(e))))))))))))))))
    }

    fn from_event(e: &mut Event) -> (r: (A0, A1, A2, A3, A4, A5, A6, A7, A8, A9, A10, A11, A12, A13, A14, A15)) {
        let a0 = A0::from_event(e);
        let a1 = A1::from_event(e);
        let a2 = A2::from_event(e);
        let a3 = A3::from_event(e);
        let a4 = A4::from_event(e);
        let a5 = A5::from_event(e);
        let a6 = A6::from_event(e);
        let a7 = A7::from_event(e);
        let a8 = A8::from_event(e);
        let a9 = A9::from_event(e);
        let a10 = A10::from_event(e);
        let a11 = A11::from_event(e);
        let a12 = A12::from_event(e);
        let a13 = A13::from_event(e);
        let a14 = A14::from_event(e);
        let a15 = A15::from_event(e);
        (a0, a1, a2, a3, a4, a5, a6, a7, a8, a9, a10, a11, a12, a13, a14, a15)
    }
}

impl<A0: IntoEvent, A1: IntoEvent, A2: IntoEvent, A3: IntoEvent, A4: IntoEvent, A5: IntoEvent, A6: IntoEvent, A7: IntoEvent, A8: IntoEvent, A9: IntoEvent, A10: IntoEvent, A11: IntoEvent, A12: IntoEvent, A13: IntoEvent, A14: IntoEvent, A15: IntoEvent> IntoEvent for (A0, A1, A2, A3, A4, A5, A6, A7, A8, A9, A10, A11, A12, A13, A14, A15) {
    open spec fn written_into(self, e: EventView) -> EventView {
        self.15.written_into(self.14.written_into(self.13.written_into(self.12.written_into(self.11.written_into(self.10.written_into(self.9.written_into(self.8.written_into(self.7.written_into(self.6.written_into(self.5.written_into(self.4.written_into(self.3.written_into(self.2.written_into(self.1.written_into(self.0.written_into(e))))))))))))))))
    }

    fn into_event(self, e: &mut Event) {
        let (a0, a1, a2, a3, a4, a5, a6, a7, a8, a9, a10, a11, a12, a13, a14, a15) = self;
        a0.into_event(e);
        a1.into_event(e);
        a2.into_event(e);
        a3.into_event(e);
        a4.into_event(e);
        a5.into_event(e);
        a6.into_event(e);
        a7.into_event(e);
        a8.into_event(e);
        a9.into_event(e);
        a10.into_event(e);
        a11.into_event(e);
        a12.into_event(e);
        a13.into_event(e);
        a14.into_event(e);
        a15.into_event(e);
    }
}

} // verus!
