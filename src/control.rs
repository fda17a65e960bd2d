use vstd::prelude::*;

verus! {

/// A decoded control instruction sent by a subscriber.
#[derive(Clone, Copy, Debug, PartialEq, Eq, Structural)]
pub enum Command {
    SelectEngine(u8),
    SetTargetFps(u32),
    SetPointCount(u32),
}

/// What a message of kind `kind` carrying `value` decodes to.
pub open spec fn spec_decode(kind: Seq<char>, value: u32) -> Option<Command> {
    if kind == "engine"@ {
        Some(Command::SelectEngine((value % 256) as u8))
    } else if kind == "fps"@ {
        Some(Command::SetTargetFps(value))
    } else if kind == "vertices"@ {
        Some(Command::SetPointCount(value))
    } else {
        None
    }
}

/// Decodes the two fields of an inbound control message; an unknown kind
/// yields `None`. An engine id keeps its low eight bits.
pub fn decode_command(kind: &str, value: u32) -> (r: Option<Command>)
    ensures
        r == spec_decode(kind@, value),
{
    let k = kind.to_owned();
    let engine = "engine".to_owned();
    let fps = "fps".to_owned();
    let vertices = "vertices".to_owned();
    proof {
        reveal_strlit("engine");
        reveal_strlit("fps");
        reveal_strlit("vertices");
    }
    if k == engine {
        Some(Command::SelectEngine((value % 256) as u8))
    } else if k == fps {
        Some(Command::SetTargetFps(value))
    } else if k == vertices {
        Some(Command::SetPointCount(value))
    } else {
        None
    }
}

/// The shared configuration read by the frame scheduler at every tick.
#[derive(Clone, Copy, Debug, PartialEq, Eq, Structural)]
pub struct Config {
    pub engine: u8,
    pub target_fps: u32,
    pub point_count: u32,
    pub capacity: u32,
}

impl Config {
    pub open spec fn wf(&self) -> bool {
        self.point_count <= self.capacity
    }

    /// The configuration after `cmd` is applied to `self`.
    pub open spec fn spec_apply(self, cmd: Command) -> Config {
        match cmd {
            Command::SelectEngine(e) => Config { engine: e, ..self },
            Command::SetTargetFps(f) => Config { target_fps: f, ..self },
            Command::SetPointCount(n) => if n <= self.capacity {
                Config { point_count: n, ..self }
            } else {
                self
            },
        }
    }

    /// Whether applying `cmd` calls for a freshly generated point cloud, and of what size.
    pub open spec fn spec_regenerate(self, cmd: Command) -> Option<u32> {
        match cmd {
            Command::SetPointCount(n) => if n <= self.capacity {
                Some(n)
            } else {
                None
            },
            _ => None,
        }
    }

    /// Starts with the given engine, rate and point count; a point count above
    /// `capacity` is refused.
    pub fn new(engine: u8, target_fps: u32, point_count: u32, capacity: u32) -> (r: Option<Config>)
        ensures
            point_count <= capacity <==> r.is_some(),
            r matches Some(c) ==> c == (Config { engine, target_fps, point_count, capacity }),
            r matches Some(c) ==> c.wf(),
    {
        if point_count <= capacity {
            Some(Config { engine, target_fps, point_count, capacity })
        } else {
            None
        }
    }

    /// Applies a command. Returns the size of the point cloud to generate when
    /// the point count changed; a point count above capacity is ignored.
    pub fn apply(&mut self, cmd: Command) -> (r: Option<u32>)
        requires
            old(self).wf(),
        ensures
            *final(self) == old(self).spec_apply(cmd),
            r == old(self).spec_regenerate(cmd),
            final(self).wf(),
    {
        match cmd {
            Command::SelectEngine(e) => {
                self.engine = e;
                None
            },
            Command::SetTargetFps(f) => {
                self.target_fps = f;
                None
            },
            Command::SetPointCount(n) => {
                if n <= self.capacity {
                    self.point_count = n;
                    Some(n)
                } else {
                    None
                }
            },
        }
    }
}

/// Setting the point count to `n` within capacity always asks for a new point
/// cloud of exactly `n` points, even when `n` is already the count, and doing it
/// twice leaves the same configuration as doing it once.
pub proof fn lemma_point_count_reconfigure(config: Config, n: u32)
    requires
        config.wf(),
        n <= config.capacity,
    ensures
        config.spec_regenerate(Command::SetPointCount(n)) == Some(n),
        config.spec_apply(Command::SetPointCount(n)).point_count == n,
        config.spec_apply(Command::SetPointCount(n)).spec_regenerate(Command::SetPointCount(n))
            == Some(n),
        config.spec_apply(Command::SetPointCount(n)).spec_apply(Command::SetPointCount(n))
            == config.spec_apply(Command::SetPointCount(n)),
{
}

/// A point count above capacity leaves the configuration as it was and asks
/// for no new point cloud.
pub proof fn lemma_point_count_over_capacity(config: Config, n: u32)
    requires
        config.wf(),
        n > config.capacity,
    ensures
        config.spec_regenerate(Command::SetPointCount(n)) is None,
        config.spec_apply(Command::SetPointCount(n)) == config,
{
}

} // verus!
