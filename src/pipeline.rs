use vstd::prelude::*;

verus! {

/// The state of the cursor pipeline over the renderer's handle types: `P`
/// for the pipeline, `U` for the projection uniform buffer, `B` for binding
/// groups.
///
/// The projection binding (set 0) exists from `setup` on. The cursor binding
/// (set 1) and the framebuffer binding (set 2) start unset; each is set, or
/// replaced, by its own call, and never removed.
pub struct Pipeline<P, U, B> {
    pipeline: P,
    pub cursor_binding: Option<B>,
    pub framebuffer_binding: Option<B>,
    ortho_buffer: U,
    ortho_binding: B,
}

impl<P, U, B> Pipeline<P, U, B> {
    /// The pipeline handle.
    pub closed spec fn handle(&self) -> P {
        self.pipeline
    }

    /// The projection uniform buffer.
    pub closed spec fn uniform(&self) -> U {
        self.ortho_buffer
    }

    /// The cursor binding (set 1), if set.
    pub closed spec fn cursor(&self) -> Option<B> {
        self.cursor_binding
    }

    /// The framebuffer binding (set 2), if set.
    pub closed spec fn framebuffer(&self) -> Option<B> {
        self.framebuffer_binding
    }

    /// The binding group of the projection uniform (set 0).
    pub closed spec fn ortho(&self) -> B {
        self.ortho_binding
    }

    /// A pipeline state over `pipeline`, the projection uniform buffer
    /// `ortho_buffer` and its binding group `ortho_binding`; the cursor and
    /// framebuffer bindings are unset.
    pub fn setup(pipeline: P, ortho_buffer: U, ortho_binding: B) -> (r: Self)
        ensures
            r.handle() == pipeline,
            r.uniform() == ortho_buffer,
            r.ortho() == ortho_binding,
            r.cursor() is None,
            r.framebuffer() is None,
    {
        Pipeline {
            pipeline,
            cursor_binding: None,
            framebuffer_binding: None,
            ortho_buffer,
            ortho_binding,
        }
    }

    /// Sets the cursor binding (set 1) to `binding`, replacing any earlier
    /// one; nothing else changes.
    pub fn set_cursor(&mut self, binding: B)
        ensures
            cursor_set_to(*old(self), *final(self), binding),
            final(self).cursor() == Some(binding),
            final(self).framebuffer() == old(self).framebuffer(),
            final(self).handle() == old(self).handle(),
            final(self).uniform() == old(self).uniform(),
            final(self).ortho() == old(self).ortho(),
    {
        self.cursor_binding = Some(binding);
    }

    /// Sets the framebuffer binding (set 2) to `binding`, replacing any
    /// earlier one; nothing else changes.
    pub fn set_framebuffer(&mut self, binding: B)
        ensures
            final(self).framebuffer() == Some(binding),
            final(self).cursor() == old(self).cursor(),
            final(self).handle() == old(self).handle(),
            final(self).uniform() == old(self).uniform(),
            final(self).ortho() == old(self).ortho(),
    {
        self.framebuffer_binding = Some(binding);
    }

    /// The projection uniform buffer, with the one value `ortho` to upload
    /// into it this frame.
    pub fn prepare<M>(&self, ortho: M) -> (r: (&U, Vec<M>))
        ensures
            *r.0 == self.uniform(),
            r.1@ == seq![ortho],
    {
        let uploads = vec![ortho];
        (&self.ortho_buffer, uploads)
    }

    /// The pipeline handle.
    pub fn pipeline(&self) -> (r: &P)
        ensures
            *r == self.handle(),
    {
        &self.pipeline
    }

    /// What a render pass binds for this pipeline: the pipeline handle and
    /// the projection binding (set 0). The cursor and framebuffer bindings
    /// are not included: see `draw_bindings`.
    pub fn apply(&self) -> (r: (&P, &B))
        ensures
            *r.0 == self.handle(),
            *r.1 == self.ortho(),
    {
        (&self.pipeline, &self.ortho_binding)
    }

    /// The cursor binding (set 1) and the framebuffer binding (set 2) that a
    /// cursor draw needs bound, or `None` while either is unset.
    pub fn draw_bindings(&self) -> (r: Option<(&B, &B)>)
        ensures
            r is Some <==> (self.cursor() is Some && self.framebuffer() is Some),
            r matches Some(pair) ==> *pair.0 == self.cursor()->0 && *pair.1
                == self.framebuffer()->0,
    {
        match (&self.cursor_binding, &self.framebuffer_binding) {
            (Some(c), Some(f)) => Some((c, f)),
            _ => None,
        }
    }
}

/// What `set_cursor(binding)` guarantees of the state after the call,
/// `after`, against the state before it, `before`.
pub open spec fn cursor_set_to<P, U, B>(
    before: Pipeline<P, U, B>,
    after: Pipeline<P, U, B>,
    binding: B,
) -> bool {
    &&& after.cursor() == Some(binding)
    &&& after.framebuffer() == before.framebuffer()
    &&& after.handle() == before.handle()
    &&& after.uniform() == before.uniform()
    &&& after.ortho() == before.ortho()
}

/// Two `set_cursor` calls in a row leave only the second binding in set 1:
/// the first is replaced, not kept beside it, and the rest of the state is
/// what it was before both calls.
pub proof fn lemma_cursor_replaced<P, U, B>(
    s0: Pipeline<P, U, B>,
    s1: Pipeline<P, U, B>,
    s2: Pipeline<P, U, B>,
    first: B,
    second: B,
)
    requires
        cursor_set_to(s0, s1, first),
        cursor_set_to(s1, s2, second),
    ensures
        s2.cursor() == Some(second),
        cursor_set_to(s0, s2, second),
{
}

} // verus!
