use vstd::prelude::*;
use vstd::string::*;
use std::marker::PhantomData;
use crate::decode::ToJson;
use crate::error::{tag, tagged, CeleryError};
use crate::json::Json;
use crate::task::Task;
use crate::types::{tagged_error_of, Args, FromJson};

verus! {

/// A function called with its whole argument list as one tuple.
pub trait Handler<Args, Res>: Sized {
    /// Whether the function may be called with `args`.
    spec fn admits(&self, args: Args) -> bool;

    /// Whether `out` is a result the function may give for `args`.
    spec fn gives(&self, args: Args, out: Res) -> bool;

    fn call(&self, args: Args) -> (r: Res)
        requires
            self.admits(args),
        ensures
            self.gives(args, r),
    ;
}

impl<F: Fn(A) -> R, A, R> Handler<(A,), R> for F {
    open spec fn admits(&self, args: (A,)) -> bool {
        self.requires((args.0,))
    }

    open spec fn gives(&self, args: (A,), out: R) -> bool {
        self.ensures((args.0,), out)
    }

    fn call(&self, args: (A,)) -> (r: R) {
        let (a,) = args;
        (self)(a)
    }
}

impl<F: Fn(A, B) -> R, A, B, R> Handler<(A, B), R> for F {
    open spec fn admits(&self, args: (A, B)) -> bool {
        self.requires((args.0, args.1))
    }

    open spec fn gives(&self, args: (A, B), out: R) -> bool {
        self.ensures((args.0, args.1), out)
    }

    fn call(&self, args: (A, B)) -> (r: R) {
        let (a, b) = args;
        (self)(a, b)
    }
}

impl<F: Fn(A, B, C) -> R, A, B, C, R> Handler<(A, B, C), R> for F {
    open spec fn admits(&self, args: (A, B, C)) -> bool {
        self.requires((args.0, args.1, args.2))
    }

    open spec fn gives(&self, args: (A, B, C), out: R) -> bool {
        self.ensures((args.0, args.1, args.2), out)
    }

    fn call(&self, args: (A, B, C)) -> (r: R) {
        let (a, b, c) = args;
        (self)(a, b, c)
    }
}

impl<F: Fn(A, B, C, D) -> R, A, B, C, D, R> Handler<(A, B, C, D), R> for F {
    open spec fn admits(&self, args: (A, B, C, D)) -> bool {
        self.requires((args.0, args.1, args.2, args.3))
    }

    open spec fn gives(&self, args: (A, B, C, D), out: R) -> bool {
        self.ensures((args.0, args.1, args.2, args.3), out)
    }

    fn call(&self, args: (A, B, C, D)) -> (r: R) {
        let (a, b, c, d) = args;
        (self)(a, b, c, d)
    }
}

impl<F: Fn(A, B, C, D, E) -> R, A, B, C, D, E, R> Handler<(A, B, C, D, E), R> for F {
    open spec fn admits(&self, args: (A, B, C, D, E)) -> bool {
        self.requires((args.0, args.1, args.2, args.3, args.4))
    }

    open spec fn gives(&self, args: (A, B, C, D, E), out: R) -> bool {
        self.ensures((args.0, args.1, args.2, args.3, args.4), out)
    }

    fn call(&self, args: (A, B, C, D, E)) -> (r: R) {
        let (a, b, c, d, e) = args;
        (self)(a, b, c, d, e)
    }
}

/// A unit that takes a JSON payload and gives a JSON result.
pub trait Callable: Sized {
    /// Whether the unit can be invoked at all.
    spec fn well_formed(&self) -> bool;

    /// Payloads that are known to decode into the unit's arguments.
    spec fn accepts(&self, payload: Json) -> bool;

    /// Payloads that are known not to.
    spec fn rejects(&self, payload: Json) -> bool;

    /// Whether `out` is a result of invoking the unit on `payload`.
    spec fn produces(&self, payload: Json, out: Json) -> bool;

    /// Whether `e` is an error that invoking the unit on `payload` may give.
    spec fn error_for(&self, payload: Json, e: CeleryError) -> bool;

    fn invoke(&self, payload: &Json) -> (r: Result<Json, CeleryError>)
        requires
            self.well_formed(),
        ensures
            self.accepts(*payload) ==> r is Ok,
            self.rejects(*payload) ==> r is Err,
            r is Ok ==> self.produces(*payload, r->Ok_0),
            r is Err ==> r->Err_0 is InvalidParam && self.error_for(*payload, r->Err_0),
    ;
}

/// A typed function behind the uniform payload-to-result shape: the payload
/// is decoded into `Args`, the function is called, and its `Res` is written
/// as JSON.
pub struct TaskHandler<F, Args, Res> {
    func: F,
    marker: PhantomData<(Args, Res)>,
}

impl<F, Args, Res> TaskHandler<F, Args, Res> {
    /// The wrapped function.
    pub closed spec fn func(&self) -> F {
        self.func
    }
}

/// Wraps a function of one argument, which must accept every argument list,
/// as a payload handler: each argument is decoded from the whole payload.
pub fn make_handler<F: Fn(A) -> R, A: FromJson, R: ToJson>(func: F) -> (r: TaskHandler<
    F,
    (A,),
    R,
>)
    requires
        forall|a: (A,)| func.requires((a.0,)),
    ensures
        r.func() == func,
        r.well_formed(),
        forall|p: Json| r.accepts(p) == <(A,) as FromJson>::accepts(p),
        forall|p: Json| r.rejects(p) == <(A,) as FromJson>::rejects(p),
        forall|p: Json, e: CeleryError| r.error_for(p, e) == tagged_error_of::<(A,)>(p, e),
        forall|p: Json, out: Json|
            r.produces(p, out) == (exists|a: (A,), x: R|
                <(A,) as FromJson>::decodes_to(p, a) && #[trigger] func.ensures((a.0,), x)
                    && R::encodes_to(x, out)),
{
    let r = TaskHandler { func, marker: PhantomData };
    assert forall|a: (A,)| r.func().admits(a) by {
        assert(func.requires((a.0,)));
    }
    assert forall|p: Json, out: Json|
        r.produces(p, out) == (exists|a: (A,), x: R|
            <(A,) as FromJson>::decodes_to(p, a) && #[trigger] func.ensures((a.0,), x)
                && R::encodes_to(x, out)) by {
        if r.produces(p, out) {
            let (a, x) = choose|a: (A,), x: R|
                <(A,) as FromJson>::decodes_to(p, a) && #[trigger] r.func().gives(a, x)
                    && R::encodes_to(x, out);
            assert(func.ensures((a.0,), x));
        }
        if exists|a: (A,), x: R|
            <(A,) as FromJson>::decodes_to(p, a) && #[trigger] func.ensures((a.0,), x)
                && R::encodes_to(x, out) {
            let (a, x) = choose|a: (A,), x: R|
                <(A,) as FromJson>::decodes_to(p, a) && #[trigger] func.ensures((a.0,), x)
                    && R::encodes_to(x, out);
            assert(r.func().gives(a, x));
        }
    }
    r
}

/// Wraps a function of 2 arguments, which must accept every argument list,
/// as a payload handler: each argument is decoded from the whole payload.
pub fn make_handler2<F: Fn(A, B) -> R, A: FromJson, B: FromJson, R: ToJson>(func: F) -> (r: TaskHandler<
    F,
    (A, B),
    R,
>)
    requires
        forall|a: (A, B)| func.requires((a.0, a.1)),
    ensures
        r.func() == func,
        r.well_formed(),
        forall|p: Json| r.accepts(p) == <(A, B) as FromJson>::accepts(p),
        forall|p: Json| r.rejects(p) == <(A, B) as FromJson>::rejects(p),
        forall|p: Json, e: CeleryError| r.error_for(p, e) == tagged_error_of::<(A, B)>(p, e),
        forall|p: Json, out: Json|
            r.produces(p, out) == (exists|a: (A, B), x: R|
                <(A, B) as FromJson>::decodes_to(p, a) && #[trigger] func.ensures((a.0, a.1), x)
                    && R::encodes_to(x, out)),
{
    let r = TaskHandler { func, marker: PhantomData };
    assert forall|a: (A, B)| r.func().admits(a) by {
        assert(func.requires((a.0, a.1)));
    }
    assert forall|p: Json, out: Json|
        r.produces(p, out) == (exists|a: (A, B), x: R|
            <(A, B) as FromJson>::decodes_to(p, a) && #[trigger] func.ensures((a.0, a.1), x)
                && R::encodes_to(x, out)) by {
        if r.produces(p, out) {
            let (a, x) = choose|a: (A, B), x: R|
                <(A, B) as FromJson>::decodes_to(p, a) && #[trigger] r.func().gives(a, x)
                    && R::encodes_to(x, out);
            assert(func.ensures((a.0, a.1), x));
        }
        if exists|a: (A, B), x: R|
            <(A, B) as FromJson>::decodes_to(p, a) && #[trigger] func.ensures((a.0, a.1), x)
                && R::encodes_to(x, out) {
            let (a, x) = choose|a: (A, B), x: R|
                <(A, B) as FromJson>::decodes_to(p, a) && #[trigger] func.ensures((a.0, a.1), x)
                    && R::encodes_to(x, out);
            assert(r.func().gives(a, x));
        }
    }
    r
}

/// Wraps a function of 3 arguments, which must accept every argument list,
/// as a payload handler: each argument is decoded from the whole payload.
pub fn make_handler3<F: Fn(A, B, C) -> R, A: FromJson, B: FromJson, C: FromJson, R: ToJson>(func: F) -> (r: TaskHandler<
    F,
    (A, B, C),
    R,
>)
    requires
        forall|a: (A, B, C)| func.requires((a.0, a.1, a.2)),
    ensures
        r.func() == func,
        r.well_formed(),
        forall|p: Json| r.accepts(p) == <(A, B, C) as FromJson>::accepts(p),
        forall|p: Json| r.rejects(p) == <(A, B, C) as FromJson>::rejects(p),
        forall|p: Json, e: CeleryError| r.error_for(p, e) == tagged_error_of::<(A, B, C)>(p, e),
        forall|p: Json, out: Json|
            r.produces(p, out) == (exists|a: (A, B, C), x: R|
                <(A, B, C) as FromJson>::decodes_to(p, a) && #[trigger] func.ensures((a.0, a.1, a.2), x)
                    && R::encodes_to(x, out)),
{
    let r = TaskHandler { func, marker: PhantomData };
    assert forall|a: (A, B, C)| r.func().admits(a) by {
        assert(func.requires((a.0, a.1, a.2)));
    }
    assert forall|p: Json, out: Json|
        r.produces(p, out) == (exists|a: (A, B, C), x: R|
            <(A, B, C) as FromJson>::decodes_to(p, a) && #[trigger] func.ensures((a.0, a.1, a.2), x)
                && R::encodes_to(x, out)) by {
        if r.produces(p, out) {
            let (a, x) = choose|a: (A, B, C), x: R|
                <(A, B, C) as FromJson>::decodes_to(p, a) && #[trigger] r.func().gives(a, x)
                    && R::encodes_to(x, out);
            assert(func.ensures((a.0, a.1, a.2), x));
        }
        if exists|a: (A, B, C), x: R|
            <(A, B, C) as FromJson>::decodes_to(p, a) && #[trigger] func.ensures((a.0, a.1, a.2), x)
                && R::encodes_to(x, out) {
            let (a, x) = choose|a: (A, B, C), x: R|
                <(A, B, C) as FromJson>::decodes_to(p, a) && #[trigger] func.ensures((a.0, a.1, a.2), x)
                    && R::encodes_to(x, out);
            assert(r.func().gives(a, x));
        }
    }
    r
}

/// Wraps a function of 4 arguments, which must accept every argument list,
/// as a payload handler: each argument is decoded from the whole payload.
pub fn make_handler4<F: Fn(A, B, C, D) -> R, A: FromJson, B: FromJson, C: FromJson, D: FromJson, R: ToJson>(func: F) -> (r: TaskHandler<
    F,
    (A, B, C, D),
    R,
>)
    requires
        forall|a: (A, B, C, D)| func.requires((a.0, a.1, a.2, a.3)),
    ensures
        r.func() == func,
        r.well_formed(),
        forall|p: Json| r.accepts(p) == <(A, B, C, D) as FromJson>::accepts(p),
        forall|p: Json| r.rejects(p) == <(A, B, C, D) as FromJson>::rejects(p),
        forall|p: Json, e: CeleryError| r.error_for(p, e) == tagged_error_of::<(A, B, C, D)>(p, e),
        forall|p: Json, out: Json|
            r.produces(p, out) == (exists|a: (A, B, C, D), x: R|
                <(A, B, C, D) as FromJson>::decodes_to(p, a) && #[trigger] func.ensures((a.0, a.1, a.2, a.3), x)
                    && R::encodes_to(x, out)),
{
    let r = TaskHandler { func, marker: PhantomData };
    assert forall|a: (A, B, C, D)| r.func().admits(a) by {
        assert(func.requires((a.0, a.1, a.2, a.3)));
    }
    assert forall|p: Json, out: Json|
        r.produces(p, out) == (exists|a: (A, B, C, D), x: R|
            <(A, B, C, D) as FromJson>::decodes_to(p, a) && #[trigger] func.ensures((a.0, a.1, a.2, a.3), x)
                && R::encodes_to(x, out)) by {
        if r.produces(p, out) {
            let (a, x) = choose|a: (A, B, C, D), x: R|
                <(A, B, C, D) as FromJson>::decodes_to(p, a) && #[trigger] r.func().gives(a, x)
                    && R::encodes_to(x, out);
            assert(func.ensures((a.0, a.1, a.2, a.3), x));
        }
        if exists|a: (A, B, C, D), x: R|
            <(A, B, C, D) as FromJson>::decodes_to(p, a) && #[trigger] func.ensures((a.0, a.1, a.2, a.3), x)
                && R::encodes_to(x, out) {
            let (a, x) = choose|a: (A, B, C, D), x: R|
                <(A, B, C, D) as FromJson>::decodes_to(p, a) && #[trigger] func.ensures((a.0, a.1, a.2, a.3), x)
                    && R::encodes_to(x, out);
            assert(r.func().gives(a, x));
        }
    }
    r
}

/// Wraps a function of 5 arguments, which must accept every argument list,
/// as a payload handler: each argument is decoded from the whole payload.
pub fn make_handler5<F: Fn(A, B, C, D, E) -> R, A: FromJson, B: FromJson, C: FromJson, D: FromJson, E: FromJson, R: ToJson>(func: F) -> (r: TaskHandler<
    F,
    (A, B, C, D, E),
    R,
>)
    requires
        forall|a: (A, B, C, D, E)| func.requires((a.0, a.1, a.2, a.3, a.4)),
    ensures
        r.func() == func,
        r.well_formed(),
        forall|p: Json| r.accepts(p) == <(A, B, C, D, E) as FromJson>::accepts(p),
        forall|p: Json| r.rejects(p) == <(A, B, C, D, E) as FromJson>::rejects(p),
        forall|p: Json, e: CeleryError| r.error_for(p, e) == tagged_error_of::<(A, B, C, D, E)>(p, e),
        forall|p: Json, out: Json|
            r.produces(p, out) == (exists|a: (A, B, C, D, E), x: R|
                <(A, B, C, D, E) as FromJson>::decodes_to(p, a) && #[trigger] func.ensures((a.0, a.1, a.2, a.3, a.4), x)
                    && R::encodes_to(x, out)),
{
    let r = TaskHandler { func, marker: PhantomData };
    assert forall|a: (A, B, C, D, E)| r.func().admits(a) by {
        assert(func.requires((a.0, a.1, a.2, a.3, a.4)));
    }
    assert forall|p: Json, out: Json|
        r.produces(p, out) == (exists|a: (A, B, C, D, E), x: R|
            <(A, B, C, D, E) as FromJson>::decodes_to(p, a) && #[trigger] func.ensures((a.0, a.1, a.2, a.3, a.4), x)
                && R::encodes_to(x, out)) by {
        if r.produces(p, out) {
            let (a, x) = choose|a: (A, B, C, D, E), x: R|
                <(A, B, C, D, E) as FromJson>::decodes_to(p, a) && #[trigger] r.func().gives(a, x)
                    && R::encodes_to(x, out);
            assert(func.ensures((a.0, a.1, a.2, a.3, a.4), x));
        }
        if exists|a: (A, B, C, D, E), x: R|
            <(A, B, C, D, E) as FromJson>::decodes_to(p, a) && #[trigger] func.ensures((a.0, a.1, a.2, a.3, a.4), x)
                && R::encodes_to(x, out) {
            let (a, x) = choose|a: (A, B, C, D, E), x: R|
                <(A, B, C, D, E) as FromJson>::decodes_to(p, a) && #[trigger] func.ensures((a.0, a.1, a.2, a.3, a.4), x)
                    && R::encodes_to(x, out);
            assert(r.func().gives(a, x));
        }
    }
    r
}

impl<F: Handler<Args, Res>, Args: FromJson, Res: ToJson> Callable for TaskHandler<F, Args, Res> {
    open spec fn well_formed(&self) -> bool {
        forall|a: Args| self.func().admits(a)
    }

    open spec fn accepts(&self, payload: Json) -> bool {
        Args::accepts(payload)
    }

    open spec fn rejects(&self, payload: Json) -> bool {
        Args::rejects(payload)
    }

    open spec fn produces(&self, payload: Json, out: Json) -> bool {
        exists|a: Args, x: Res|
            Args::decodes_to(payload, a) && #[trigger] self.func().gives(a, x) && Res::encodes_to(
                x,
                out,
            )
    }

    /// The argument list's decoding error, tagged with the list's type.
    open spec fn error_for(&self, payload: Json, e: CeleryError) -> bool {
        tagged_error_of::<Args>(payload, e)
    }

    fn invoke(&self, payload: &Json) -> (r: Result<Json, CeleryError>) {
        let args = match Args::from_json_value(payload) {
            Ok(args) => args,
            Err(e) => {
                let r = tag(Args::decoded_type().as_str(), e);
                assert(tagged_error_of::<Args>(*payload, r));
                return Err(r);
            },
        };
        assert(self.func().admits(args));
        let res = self.func.call(args);
        let out = res.to_json();
        assert(self.func().gives(args, res));
        Ok(out)
    }
}

/// The names of a list of registered handlers, in order.
pub open spec fn handler_names<H>(es: Seq<(Seq<char>, H)>) -> Seq<Seq<char>> {
    es.map_values(|e: (Seq<char>, H)| e.0)
}

/// Handlers registered under task names, at most one per name. Registration
/// takes `&mut self`; dispatch takes `&self`, so a filled map can be shared.
pub struct HandlerMap<H: Callable> {
    entries: Vec<(String, H)>,
}

impl<H: Callable> View for HandlerMap<H> {
    /// Each registration as its name and handler, in order.
    type V = Seq<(Seq<char>, H)>;

    closed spec fn view(&self) -> Seq<(Seq<char>, H)> {
        self.entries@.map_values(|e: (String, H)| (e.0@, e.1))
    }
}

impl<H: Callable> HandlerMap<H> {
    #[verifier::type_invariant]
    spec fn inv(&self) -> bool {
        &&& handler_names(self@).no_duplicates()
        &&& forall|i: int| 0 <= i < self@.len() ==> (#[trigger] self@[i]).1.well_formed()
    }

    pub fn new() -> (r: HandlerMap<H>)
        ensures
            r@ == Seq::<(Seq<char>, H)>::empty(),
    {
        let r = HandlerMap { entries: Vec::new() };
        assert(r@ =~= Seq::<(Seq<char>, H)>::empty());
        assert(handler_names(r@) =~= Seq::<Seq<char>>::empty());
        r
    }

    /// The number of registered handlers.
    pub fn len(&self) -> (r: usize)
        ensures
            r == self@.len(),
    {
        self.entries.len()
    }

    fn position_of(&self, name: &String) -> (r: Option<usize>)
        ensures
            r is None <==> !handler_names(self@).contains(name@),
            r is Some ==> r->Some_0 < self@.len() && self@[r->Some_0 as int].0 == name@,
    {
        let mut i: usize = 0;
        while i < self.entries.len()
            invariant
                i <= self@.len(),
                self@.len() == self.entries@.len(),
                forall|j: int| 0 <= j < i ==> self@[j].0 != name@,
            decreases self.entries.len() - i,
        {
            assert(self@[i as int].0 == self.entries@[i as int].0@);
            if self.entries[i].0 == *name {
                assert(handler_names(self@)[i as int] == name@);
                return Some(i);
            }
            i = i + 1;
        }
        assert(!handler_names(self@).contains(name@)) by {
            if handler_names(self@).contains(name@) {
                let k = choose|k: int|
                    0 <= k < handler_names(self@).len() && handler_names(self@)[k] == name@;
                assert(self@[k].0 == name@);
            }
        }
        None
    }

    /// Whether a handler is registered under `name`.
    pub fn contains(&self, name: &str) -> (r: bool)
        ensures
            r == handler_names(self@).contains(name@),
    {
        let key = String::from_str(name);
        self.position_of(&key).is_some()
    }

    /// Registers `handler` under `name`. A name that is taken already keeps
    /// its handler and the new one is refused.
    pub fn register(&mut self, name: String, handler: H) -> (r: Result<(), CeleryError>)
        requires
            handler.well_formed(),
        ensures
            r is Err <==> handler_names(old(self)@).contains(name@),
            r is Ok ==> final(self)@ == old(self)@.push((name@, handler)),
            r is Err ==> final(self)@ == old(self)@ && r->Err_0 is InvalidParam,
    {
        proof {
            use_type_invariant(&*self);
        }
        match self.position_of(&name) {
            Some(_) => Err(CeleryError::InvalidParam(String::from_str("duplicate handler name: ").concat(name.as_str()))),
            None => {
                let ghost old_view = self@;
                let ghost name_view = name@;
                let mut entries: Vec<(String, H)> = Vec::new();
                assert(entries@.map_values(|e: (String, H)| (e.0@, e.1)) =~= Seq::<(Seq<char>, H)>::empty());
                assert(handler_names(Seq::<(Seq<char>, H)>::empty()) =~= Seq::<Seq<char>>::empty());
                std::mem::swap(&mut self.entries, &mut entries);
                entries.push((name, handler));
                assert(entries@.map_values(|e: (String, H)| (e.0@, e.1)) =~= old_view.push((name_view, handler)));
                assert(handler_names(old_view.push((name_view, handler))) =~= handler_names(old_view).push(name_view));
                std::mem::swap(&mut self.entries, &mut entries);
                Ok(())
            },
        }
    }

    /// Decodes `payload` for the handler registered under `name`, calls it,
    /// and gives its result as JSON. A payload that does not decode gives an
    /// error whose text starts with the task's name.
    pub fn dispatch(&self, name: &str, payload: &Json) -> (r: Result<Json, CeleryError>)
        ensures
            !handler_names(self@).contains(name@) ==> r is Err && r->Err_0 is TaskNotFound
                && r->Err_0->TaskNotFound_0@ == name@,
            forall|i: int|
                0 <= i < self@.len() && (#[trigger] self@[i]).0 == name@ ==> {
                    &&& (self@[i].1.accepts(*payload) ==> r is Ok)
                    &&& (self@[i].1.rejects(*payload) ==> r is Err)
                    &&& (r is Ok ==> self@[i].1.produces(*payload, r->Ok_0))
                    &&& (r is Err ==> r->Err_0 is InvalidParam && exists|inner: CeleryError|
                        #[trigger] self@[i].1.error_for(*payload, inner) && r->Err_0->InvalidParam_0@
                            == tagged(name@, inner))
                },
    {
        proof {
            use_type_invariant(self);
        }
        let key = String::from_str(name);
        match self.position_of(&key) {
            None => {
                proof {
                    assert forall|j: int| 0 <= j < self@.len() implies (#[trigger] self@[j]).0 != name@ by {
                        assert(handler_names(self@)[j] == self@[j].0);
                    }
                }
                Err(CeleryError::TaskNotFound(key))
            },
            Some(i) => {
                proof {
                    assert forall|j: int| 0 <= j < self@.len() && (#[trigger] self@[j]).0 == name@
                        implies j == i by {
                        assert(handler_names(self@)[j] == handler_names(self@)[i as int]);
                    }
                }
                assert(self@[i as int].1 == self.entries@[i as int].1);
                match self.entries[i].1.invoke(payload) {
                    Ok(out) => Ok(out),
                    Err(e) => {
                        let r = tag(name, e);
                        assert(self@[i as int].1.error_for(*payload, e));
                        Err(r)
                    },
                }
            },
        }
    }
}

/// Sums three positional integers.
pub fn sum_three(args: Args<(i32, i32, i32)>) -> (r: i64)
    ensures
        r == args.0.0 + args.0.1 + args.0.2,
{
    let (a, b, c) = args.into_inner();
    a as i64 + b as i64 + c as i64
}

/// Sums three positional integers; the task context is not read.
pub fn sum_three_in_task(task: Task, args: Args<(i32, i32, i32)>) -> (r: i64)
    ensures
        r == args.0.0 + args.0.1 + args.0.2,
{
    sum_three(args)
}

/// The payload `{"args": [1, 2, 3]}`.
fn one_two_three() -> (v: Json)
    ensures
        v == Json::Object(v->Object_0),
        v->Object_0@.len() == 1,
        v->Object_0@[0].0@ == "args"@,
        v->Object_0@[0].1 is Array,
        v->Object_0@[0].1->Array_0@ == seq![Json::Int(1), Json::Int(2), Json::Int(3)],
{
    let items: Vec<Json> = vec![Json::Int(1), Json::Int(2), Json::Int(3)];
    let mut entries: Vec<(String, Json)> = Vec::new();
    entries.push((String::from_str("args"), Json::Array(items)));
    Json::Object(entries)
}

/// Registers `sum_three` as `sum` and dispatches `{"args": [1, 2, 3]}` to it.
pub fn dispatch_positional_sum() -> (r: Result<Json, CeleryError>)
    ensures
        r is Ok && r->Ok_0 == Json::Int(6),
{
    let mut map = HandlerMap::new();
    let h = make_handler(sum_three);
    let registered = map.register(String::from_str("sum"), h);
    assert(map@ == seq![("sum"@, h)]);
    let payload = one_two_three();
    let ghost items = payload->Object_0@[0].1;
    assert(crate::json::member(payload, "args"@) == Some(items));
    assert(items->Array_0@[0] == Json::Int(1));
    assert(items->Array_0@[1] == Json::Int(2));
    assert(items->Array_0@[2] == Json::Int(3));
    assert(<(i32, i32, i32) as crate::decode::JsonDecode>::accepts(items));
    let r = map.dispatch("sum", &payload);
    assert(map@[0].0 == "sum"@);
    assert(<Args<(i32, i32, i32)> as FromJson>::accepts(payload));
    assert(<(Args<(i32, i32, i32)>,) as FromJson>::accepts(payload));
    assert(h.accepts(payload));
    r
}

/// Registers `sum_three_in_task` as `add` and dispatches `{"args": [1, 2, 3]}`
/// to it: the task context is read from the same payload.
pub fn dispatch_positional_sum_in_task() -> (r: Result<Json, CeleryError>)
    ensures
        r is Ok && r->Ok_0 == Json::Int(6),
{
    let mut map = HandlerMap::new();
    let h = make_handler2(sum_three_in_task);
    let registered = map.register(String::from_str("add"), h);
    assert(map@ == seq![("add"@, h)]);
    let payload = one_two_three();
    let ghost items = payload->Object_0@[0].1;
    assert(crate::json::member(payload, "args"@) == Some(items));
    assert(items->Array_0@[0] == Json::Int(1));
    assert(items->Array_0@[1] == Json::Int(2));
    assert(items->Array_0@[2] == Json::Int(3));
    assert(<(i32, i32, i32) as crate::decode::JsonDecode>::accepts(items));
    assert("args"@ != "name"@) by {
        reveal_strlit("name");
        reveal_strlit("args");
        assert("args"@[0] != "name"@[0]);
    }
    assert(crate::json::entry_of(payload->Object_0@.drop_first(), "name"@) is None);
    assert(crate::json::member(payload, "name"@) is None);
    let r = map.dispatch("add", &payload);
    assert(map@[0].0 == "add"@);
    assert(<Args<(i32, i32, i32)> as FromJson>::accepts(payload));
    assert(<Task as FromJson>::accepts(payload));
    assert(<(Task, Args<(i32, i32, i32)>) as FromJson>::accepts(payload));
    assert(h.accepts(payload));
    r
}

} // verus!
