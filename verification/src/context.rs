use vstd::prelude::*;
use crate::command::{Attachment, DrawCommand, FramebufferTarget, GpuCommand, ObjectKind, Program};

verus! {

/// What a GPU can provide, as reported by its driver.
#[derive(Clone, Copy, Debug, PartialEq, Eq, Structural)]
pub struct Limits {
    /// The largest width and height of an image.
    pub max_texture_size: u32,
    /// The largest number of samples per fragment of a multisample image.
    pub max_samples: u32,
    /// The number of color attachments of a framebuffer.
    pub max_color_attachments: u32,
}

/// The state of a GPU context, as far as the library depends on it.
pub struct ContextView {
    pub limits: Limits,
    /// One entry per handle ever handed out, at the index of the handle:
    /// the kind of the object while it lives, `None` once it is deleted.
    /// Handle `0` is never handed out.
    pub objects: Seq<Option<ObjectKind>>,
    /// The framebuffer that draws go to; `None` is the screen.
    pub draw_framebuffer: Option<u32>,
    /// The framebuffer that blits read from; `None` is the screen.
    pub read_framebuffer: Option<u32>,
    pub renderbuffer: Option<u32>,
    /// The programs that the driver reported as failing to compile.
    pub failed_programs: Seq<Program>,
    /// The commands submitted and not yet taken, oldest first.
    pub commands: Seq<GpuCommand>,
}

impl ContextView {
    /// The state of a context that has not been used yet.
    pub open spec fn initial(limits: Limits) -> ContextView {
        ContextView {
            limits,
            objects: seq![None],
            draw_framebuffer: None,
            read_framebuffer: None,
            renderbuffer: None,
            failed_programs: Seq::empty(),
            commands: Seq::empty(),
        }
    }

    /// Whether `id` is the handle of a live object of the given kind.
    pub open spec fn is_live(self, id: u32, kind: ObjectKind) -> bool {
        0 < id < self.objects.len() && self.objects[id as int] == Some(kind)
    }

    /// The handles of the live objects of the given kind.
    pub open spec fn live(self, kind: ObjectKind) -> Set<u32> {
        Set::new(|id: u32| self.is_live(id, kind))
    }

    /// The number of handles that can still be handed out.
    pub open spec fn free_handles(self) -> int {
        0x1_0000_0000 - self.objects.len()
    }

    /// The handle that the next object gets.
    pub open spec fn next_handle(self) -> u32 {
        self.objects.len() as u32
    }

    /// Whether an image of the given size can be allocated.
    pub open spec fn supports_size(self, width: u32, height: u32) -> bool {
        &&& 1 <= width <= self.limits.max_texture_size
        &&& 1 <= height <= self.limits.max_texture_size
    }

    /// Whether a multisample image can have the given number of samples per fragment.
    pub open spec fn supports_samples(self, samples: u32) -> bool {
        1 <= samples <= self.limits.max_samples
    }

    /// The framebuffer bound to the given binding point.
    pub open spec fn framebuffer(self, target: FramebufferTarget) -> Option<u32> {
        match target {
            FramebufferTarget::Draw => self.draw_framebuffer,
            FramebufferTarget::Read => self.read_framebuffer,
        }
    }

    /// Whether the given program is known not to compile.
    pub open spec fn program_failed(self, program: Program) -> bool {
        self.failed_programs.contains(program)
    }

    /// Whether the command selects a program that is known not to compile.
    pub open spec fn uses_failed(self, command: DrawCommand) -> bool {
        command matches DrawCommand::UseProgram { program } && self.program_failed(program)
    }

    /// Whether one of the commands selects a program that is known not to compile.
    pub open spec fn uses_failed_program(self, draws: Seq<DrawCommand>) -> bool {
        exists|i: int| 0 <= i < draws.len() && self.uses_failed(#[trigger] draws[i])
    }

    /// Whether a binding refers to nothing or to a live object of the given kind.
    pub open spec fn binding_ok(self, binding: Option<u32>, kind: ObjectKind) -> bool {
        binding matches Some(id) ==> self.is_live(id, kind)
    }

    /// What holds of every state that a context can reach.
    pub open spec fn inv(self) -> bool {
        &&& 1 <= self.objects.len() <= 0x1_0000_0000
        &&& self.objects[0] is None
        &&& self.binding_ok(self.draw_framebuffer, ObjectKind::Framebuffer)
        &&& self.binding_ok(self.read_framebuffer, ObjectKind::Framebuffer)
        &&& self.binding_ok(self.renderbuffer, ObjectKind::Renderbuffer)
    }

    /// Whether a color attachment index is within the limits.
    pub open spec fn attachment_ok(self, attachment: Attachment) -> bool {
        attachment matches Attachment::Color(channel) ==> channel
            < self.limits.max_color_attachments
    }

    /// Whether the command may be submitted in this state.
    pub open spec fn accepts(self, command: GpuCommand) -> bool {
        match command {
            GpuCommand::Create { kind, id } => id == self.objects.len() && self.free_handles() >= 1,
            GpuCommand::Delete { kind, id } => self.is_live(id, kind),
            GpuCommand::TextureStorage { id, format, width, height, sampling } => {
                self.is_live(id, ObjectKind::Texture) && self.supports_size(width, height)
            },
            GpuCommand::BindRenderbuffer { id } => self.binding_ok(id, ObjectKind::Renderbuffer),
            GpuCommand::RenderbufferStorageMultisample { samples, format, width, height } => {
                &&& self.renderbuffer is Some
                &&& self.supports_size(width, height)
                &&& self.supports_samples(samples)
            },
            GpuCommand::BindFramebuffer { target, id } => self.binding_ok(
                id,
                ObjectKind::Framebuffer,
            ),
            GpuCommand::FramebufferRenderbuffer { target, attachment, id } => {
                &&& self.framebuffer(target) is Some
                &&& self.attachment_ok(attachment)
                &&& self.is_live(id, ObjectKind::Renderbuffer)
            },
            GpuCommand::FramebufferTexture { target, attachment, id } => {
                &&& self.framebuffer(target) is Some
                &&& self.attachment_ok(attachment)
                &&& self.is_live(id, ObjectKind::Texture)
            },
            GpuCommand::DrawBuffers { count } => {
                self.draw_framebuffer is Some && count <= self.limits.max_color_attachments
            },
            GpuCommand::Viewport { width, height } => true,
            GpuCommand::Clear { state } => true,
            GpuCommand::Blit { width, height, color, depth } => true,
            GpuCommand::Draw { command } => true,
        }
    }

    /// A binding after the object `id` of kind `deleted` has been deleted:
    /// a binding to a deleted object reverts to nothing.
    pub open spec fn unbound(
        binding: Option<u32>,
        kind: ObjectKind,
        deleted: ObjectKind,
        id: u32,
    ) -> Option<u32> {
        if kind == deleted && binding == Some(id) {
            None
        } else {
            binding
        }
    }

    /// The state after the command has been submitted.
    pub open spec fn after(self, command: GpuCommand) -> ContextView {
        let logged = ContextView { commands: self.commands.push(command), ..self };
        match command {
            GpuCommand::Create { kind, id } => ContextView {
                objects: self.objects.push(Some(kind)),
                ..logged
            },
            GpuCommand::Delete { kind, id } => ContextView {
                objects: self.objects.update(id as int, None),
                draw_framebuffer: Self::unbound(
                    self.draw_framebuffer,
                    ObjectKind::Framebuffer,
                    kind,
                    id,
                ),
                read_framebuffer: Self::unbound(
                    self.read_framebuffer,
                    ObjectKind::Framebuffer,
                    kind,
                    id,
                ),
                renderbuffer: Self::unbound(self.renderbuffer, ObjectKind::Renderbuffer, kind, id),
                ..logged
            },
            GpuCommand::BindRenderbuffer { id } => ContextView { renderbuffer: id, ..logged },
            GpuCommand::BindFramebuffer { target, id } => match target {
                FramebufferTarget::Draw => ContextView { draw_framebuffer: id, ..logged },
                FramebufferTarget::Read => ContextView { read_framebuffer: id, ..logged },
            },
            _ => logged,
        }
    }
}

/// A command that a state accepts leads to a state that a context can reach.
pub proof fn lemma_accepted_command_keeps_invariant(ctx: ContextView, command: GpuCommand)
    requires
        ctx.inv(),
        ctx.accepts(command),
    ensures
        ctx.after(command).inv(),
        ctx.after(command).commands == ctx.commands.push(command),
        ctx.after(command).limits == ctx.limits,
        ctx.after(command).failed_programs == ctx.failed_programs,
{
}

/// An object is deleted once: its deletion leaves every other object as it
/// was, and is not accepted a second time.
pub proof fn lemma_deleted_once(ctx: ContextView, kind: ObjectKind, id: u32)
    requires
        ctx.inv(),
        ctx.is_live(id, kind),
    ensures
        !ctx.after(GpuCommand::Delete { kind, id }).accepts(GpuCommand::Delete { kind, id }),
        ctx.after(GpuCommand::Delete { kind, id }).live(kind) == ctx.live(kind).remove(id),
        forall|other: ObjectKind|
            other != kind ==> #[trigger] ctx.after(GpuCommand::Delete { kind, id }).live(other)
                == ctx.live(other),
{
    let after = ctx.after(GpuCommand::Delete { kind, id });
    assert(after.live(kind) =~= ctx.live(kind).remove(id));
    assert forall|other: ObjectKind| other != kind implies #[trigger] after.live(other)
        == ctx.live(other) by {
        assert(after.live(other) =~= ctx.live(other));
    }
}

/// Nothing leaks: an object that is created and deleted again leaves the
/// same objects alive as before, and its handle is not handed out again.
pub proof fn lemma_created_and_deleted(ctx: ContextView, kind: ObjectKind, observed: ObjectKind)
    requires
        ctx.inv(),
        ctx.free_handles() >= 1,
    ensures
        ({
            let id = ctx.next_handle();
            let created = ctx.after(GpuCommand::Create { kind, id });
            let deleted = created.after(GpuCommand::Delete { kind, id });
            &&& created.is_live(id, kind)
            &&& created.live(kind) == ctx.live(kind).insert(id)
            &&& deleted.live(observed) == ctx.live(observed)
            &&& deleted.next_handle() != id || deleted.free_handles() == 0
        }),
{
    let id = ctx.next_handle();
    let created = ctx.after(GpuCommand::Create { kind, id });
    let deleted = created.after(GpuCommand::Delete { kind, id });
    assert(created.live(kind) =~= ctx.live(kind).insert(id));
    assert(deleted.live(observed) =~= ctx.live(observed));
}

/// The number of live objects of the given kind among `objects`.
pub open spec fn count_live(objects: Seq<Option<ObjectKind>>, kind: ObjectKind) -> nat
    decreases objects.len(),
{
    if objects.len() == 0 {
        0
    } else {
        count_live(objects.drop_last(), kind) + if objects.last() == Some(kind) {
            1nat
        } else {
            0nat
        }
    }
}

/// A GPU context: the one handle through which every resource issues its
/// commands and releases what it holds on the GPU.
///
/// The context hands out the handles, follows which objects live and which
/// are bound, and queues the commands in the order of submission for the
/// driver to execute.
pub struct Context {
    limits: Limits,
    slots: Vec<Option<ObjectKind>>,
    draw_framebuffer: Option<u32>,
    read_framebuffer: Option<u32>,
    renderbuffer: Option<u32>,
    failed_programs: Vec<Program>,
    commands: Vec<GpuCommand>,
}

impl View for Context {
    type V = ContextView;

    closed spec fn view(&self) -> ContextView {
        ContextView {
            limits: self.limits,
            objects: self.slots@,
            draw_framebuffer: self.draw_framebuffer,
            read_framebuffer: self.read_framebuffer,
            renderbuffer: self.renderbuffer,
            failed_programs: self.failed_programs@,
            commands: self.commands@,
        }
    }
}

impl Context {
    /// Whether the context is in a state that it can reach.
    pub open spec fn wf(&self) -> bool {
        self@.inv()
    }

    /// A context for a GPU with the given limits, with no object and an empty queue.
    pub fn new(limits: Limits) -> (ctx: Context)
        ensures
            ctx.wf(),
            ctx@ == ContextView::initial(limits),
    {
        let mut slots: Vec<Option<ObjectKind>> = Vec::new();
        slots.push(None);
        Context {
            limits,
            slots,
            draw_framebuffer: None,
            read_framebuffer: None,
            renderbuffer: None,
            failed_programs: Vec::new(),
            commands: Vec::new(),
        }
    }

    /// The limits of the GPU.
    pub fn limits(&self) -> (limits: Limits)
        ensures
            limits == self@.limits,
    {
        self.limits
    }

    /// The framebuffer that draws go to; `None` is the screen.
    pub fn draw_framebuffer(&self) -> (id: Option<u32>)
        ensures
            id == self@.draw_framebuffer,
    {
        self.draw_framebuffer
    }

    /// The framebuffer that blits read from; `None` is the screen.
    pub fn read_framebuffer(&self) -> (id: Option<u32>)
        ensures
            id == self@.read_framebuffer,
    {
        self.read_framebuffer
    }

    /// The bound renderbuffer.
    pub fn bound_renderbuffer(&self) -> (id: Option<u32>)
        ensures
            id == self@.renderbuffer,
    {
        self.renderbuffer
    }

    /// Whether `id` is the handle of a live object of the given kind.
    pub fn is_live(&self, id: u32, kind: ObjectKind) -> (b: bool)
        ensures
            b == self@.is_live(id, kind),
    {
        if id == 0 || id as usize >= self.slots.len() {
            return false;
        }
        match self.slots[id as usize] {
            Some(k) => k == kind,
            None => false,
        }
    }

    /// The number of live objects of the given kind.
    pub fn live_count(&self, kind: ObjectKind) -> (n: usize)
        ensures
            n == count_live(self@.objects, kind),
    {
        let mut n: usize = 0;
        let mut i: usize = 0;
        while i < self.slots.len()
            invariant
                i <= self.slots.len(),
                n <= i,
                n == count_live(self.slots@.take(i as int), kind),
            decreases self.slots.len() - i,
        {
            proof {
                assert(self.slots@.take(i + 1).drop_last() == self.slots@.take(i as int));
            }
            let live = match self.slots[i] {
                Some(k) => k == kind,
                None => false,
            };
            if live {
                n = n + 1;
            }
            i = i + 1;
        }
        proof {
            assert(self.slots@.take(i as int) == self.slots@);
        }
        n
    }

    /// Whether `count` more objects can be created.
    pub fn can_allocate(&self, count: u32) -> (b: bool)
        requires
            self.wf(),
        ensures
            b == (self@.free_handles() >= count),
    {
        self.slots.len() as u64 + count as u64 <= 0x1_0000_0000
    }

    /// The handle that the next object gets.
    pub(crate) fn next_handle(&self) -> (id: u32)
        requires
            self.wf(),
            self@.free_handles() >= 1,
        ensures
            id == self@.next_handle(),
            id == self@.objects.len(),
    {
        self.slots.len() as u32
    }

    /// Whether an image of the given size can be allocated.
    pub fn supports_size(&self, width: u32, height: u32) -> (b: bool)
        ensures
            b == self@.supports_size(width, height),
    {
        1 <= width && width <= self.limits.max_texture_size && 1 <= height && height
            <= self.limits.max_texture_size
    }

    /// Whether a multisample image can have the given number of samples per fragment.
    pub fn supports_samples(&self, samples: u32) -> (b: bool)
        ensures
            b == self@.supports_samples(samples),
    {
        1 <= samples && samples <= self.limits.max_samples
    }

    /// Records that the driver failed to compile the given program.
    pub fn report_program_failure(&mut self, program: Program)
        ensures
            final(self)@ == (ContextView {
                failed_programs: old(self)@.failed_programs.push(program),
                ..old(self)@
            }),
            final(self)@.program_failed(program),
            forall|p: Program| old(self)@.program_failed(p) ==> final(self)@.program_failed(p),
            forall|p: Program| final(self)@.program_failed(p) ==> p == program || old(
                self,
            )@.program_failed(p),
    {
        self.failed_programs.push(program);
        proof {
            let before = old(self)@.failed_programs;
            let after = self@.failed_programs;
            assert(after[before.len() as int] == program);
            assert forall|p: Program| before.contains(p) implies after.contains(p) by {
                let i = choose|i: int| 0 <= i < before.len() && before[i] == p;
                assert(after[i] == p);
            }
        }
    }

    /// Whether the given program is known not to compile.
    pub fn program_failed(&self, program: Program) -> (b: bool)
        ensures
            b == self@.program_failed(program),
    {
        let mut i: usize = 0;
        while i < self.failed_programs.len()
            invariant
                i <= self.failed_programs.len(),
                forall|j: int| 0 <= j < i ==> self.failed_programs@[j] != program,
            decreases self.failed_programs.len() - i,
        {
            if self.failed_programs[i] == program {
                return true;
            }
            i = i + 1;
        }
        false
    }

    /// Whether one of the commands selects a program that is known not to compile.
    pub fn uses_failed_program(&self, draws: &Vec<DrawCommand>) -> (b: bool)
        ensures
            b == self@.uses_failed_program(draws@),
    {
        let mut i: usize = 0;
        while i < draws.len()
            invariant
                i <= draws.len(),
                forall|j: int| 0 <= j < i ==> !self@.uses_failed(#[trigger] draws@[j]),
            decreases draws.len() - i,
        {
            let failed = match draws[i] {
                DrawCommand::UseProgram { program } => self.program_failed(program),
                _ => false,
            };
            if failed {
                return true;
            }
            i = i + 1;
        }
        false
    }

    /// The commands submitted and not yet taken, oldest first.
    pub fn commands(&self) -> (commands: &Vec<GpuCommand>)
        ensures
            commands@ == self@.commands,
    {
        &self.commands
    }

    /// Takes the queued commands for execution, oldest first, and leaves the queue empty.
    pub fn take_commands(&mut self) -> (commands: Vec<GpuCommand>)
        ensures
            commands@ == old(self)@.commands,
            final(self)@ == (ContextView { commands: Seq::empty(), ..old(self)@ }),
    {
        let mut commands: Vec<GpuCommand> = Vec::new();
        std::mem::swap(&mut self.commands, &mut commands);
        commands
    }

    /// Submits a command: brings the tracked state up to date and queues the command.
    pub(crate) fn submit(&mut self, command: GpuCommand)
        requires
            old(self).wf(),
            old(self)@.accepts(command),
        ensures
            final(self).wf(),
            final(self)@ == old(self)@.after(command),
    {
        match command {
            GpuCommand::Create { kind, id } => {
                self.slots.push(Some(kind));
            },
            GpuCommand::Delete { kind, id } => {
                self.slots.set(id as usize, None);
                match kind {
                    ObjectKind::Framebuffer => {
                        if self.draw_framebuffer == Some(id) {
                            self.draw_framebuffer = None;
                        }
                        if self.read_framebuffer == Some(id) {
                            self.read_framebuffer = None;
                        }
                    },
                    ObjectKind::Renderbuffer => {
                        if self.renderbuffer == Some(id) {
                            self.renderbuffer = None;
                        }
                    },
                    ObjectKind::Texture => {},
                }
            },
            GpuCommand::BindRenderbuffer { id } => {
                self.renderbuffer = id;
            },
            GpuCommand::BindFramebuffer { target, id } => {
                match target {
                    FramebufferTarget::Draw => {
                        self.draw_framebuffer = id;
                    },
                    FramebufferTarget::Read => {
                        self.read_framebuffer = id;
                    },
                }
            },
            _ => {},
        }
        self.commands.push(command);
    }
}

} // verus!
