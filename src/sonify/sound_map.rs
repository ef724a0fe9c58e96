//! The sound and colour table: one entry of notes and colours per metric.

use vstd::prelude::*;

use crate::text::same_text;

verus! {

/// One pitch: its frequency in Hz and its name.
pub struct Note {
    pub frequency: u32,
    pub name: String,
}

impl Note {
    pub fn new(frequency: u32, name: &str) -> (r: Self)
        ensures
            r.frequency == frequency,
            r.name@ == name@,
    {
        Note { frequency, name: String::from_str(name) }
    }
}

/// How one metric sounds and looks: its display name and unit, its notes from
/// low to high, its colours, and for discrete metrics the index that each
/// status label stands for (kept as a description; the mapper reads the value).
pub struct MetricConfig {
    pub metric_name: String,
    pub unit: String,
    pub notes: Vec<Note>,
    pub colors: Vec<String>,
    pub status_map: Option<Vec<(String, usize)>>,
}

/// `c` reads as the given display name, unit, notes as (Hz, name) from low
/// to high, colours, and status labels with their indices.
pub open spec fn describes(
    c: MetricConfig,
    name: Seq<char>,
    unit: Seq<char>,
    notes: Seq<(u32, Seq<char>)>,
    colors: Seq<Seq<char>>,
    status: Option<Seq<(Seq<char>, usize)>>,
) -> bool {
    &&& c.metric_name@ == name
    &&& c.unit@ == unit
    &&& c.notes@.map_values(|n: Note| (n.frequency, n.name@)) == notes
    &&& c.colors@.map_values(|s: String| s@) == colors
    &&& match c.status_map {
        None => status is None,
        Some(m) => status == Some(m@.map_values(|e: (String, usize)| (e.0@, e.1))),
    }
}

/// A colour that is written with a leading `#`.
pub open spec fn is_marked_color(c: Seq<char>) -> bool {
    c.len() > 0 && c[0] == '#'
}

/// Every colour of the list is written with a leading `#`.
pub open spec fn all_marked(colors: Seq<String>) -> bool {
    forall|j: int| 0 <= j < colors.len() ==> is_marked_color(#[trigger] colors[j]@)
}

/// The registry of metric entries, keyed by metric name.
pub struct SoundMap {
    pub entries: Vec<(String, MetricConfig)>,
}

impl SoundMap {
    /// The metric names, in the order of the entries.
    pub open spec fn keys(&self) -> Seq<Seq<char>> {
        self.entries@.map_values(|e: (String, MetricConfig)| e.0@)
    }

    /// Every metric has at least one note.
    pub open spec fn well_formed(&self) -> bool {
        forall|i: int| 0 <= i < self.entries@.len() ==> self.entries@[i].1.notes@.len() > 0
    }

    /// Entry `i` is the first one named `key`.
    pub open spec fn is_first_match(&self, key: Seq<char>, i: int) -> bool {
        &&& 0 <= i < self.entries@.len()
        &&& self.entries@[i].0@ == key
        &&& forall|j: int| 0 <= j < i ==> self.entries@[j].0@ != key
    }

    /// Some entry is named `key`.
    pub open spec fn has_key(&self, key: Seq<char>) -> bool {
        exists|i: int| self.is_first_match(key, i)
    }

    /// The entry for `key`: the first one of that name, if any.
    pub open spec fn lookup(&self, key: Seq<char>) -> Option<MetricConfig> {
        if self.has_key(key) {
            Some(self.entries@[choose|i: int| self.is_first_match(key, i)].1)
        } else {
            None
        }
    }

    /// The first match is unique, so `lookup` returns the entry at any first match.
    pub proof fn lemma_first_match(&self, key: Seq<char>, i: int)
        requires
            self.is_first_match(key, i),
        ensures
            self.lookup(key) == Some(self.entries@[i].1),
    {
        let k = choose|k: int| self.is_first_match(key, k);
        assert(self.is_first_match(key, k));
        if k < i {
            assert(self.entries@[k].0@ != key);
        } else if i < k {
            assert(self.entries@[i].0@ != key);
        }
    }

    /// Position of the first entry named `key`.
    fn position(&self, key: &str) -> (r: Option<usize>)
        ensures
            r matches Some(i) ==> self.is_first_match(key@, i as int),
            r is None ==> !self.has_key(key@),
    {
        let mut i: usize = 0;
        while i < self.entries.len()
            invariant
                i <= self.entries@.len(),
                forall|j: int| 0 <= j < i ==> self.entries@[j].0@ != key@,
            decreases self.entries@.len() - i,
        {
            if same_text(self.entries[i].0.as_str(), key) {
                return Some(i);
            }
            i = i + 1;
        }
        None
    }

    /// The entry for `key`, if the table has one.
    pub fn get(&self, key: &str) -> (r: Option<&MetricConfig>)
        ensures
            r matches Some(c) ==> self.lookup(key@) == Some(*c),
            r is None ==> self.lookup(key@) is None,
    {
        match self.position(key) {
            Some(i) => {
                proof {
                    self.lemma_first_match(key@, i as int);
                }
                Some(&self.entries[i].1)
            },
            None => None,
        }
    }

    /// Whether the table has an entry for `key`.
    pub fn contains_key(&self, key: &str) -> (r: bool)
        ensures
            r == self.lookup(key@) is Some,
    {
        self.position(key).is_some()
    }
}

/// The `cpu_usage` entry: CPU Usage, in %.

/// The `cpu_usage` entry: CPU Usage, in %.
pub open spec fn is_cpu_usage_entry(c: MetricConfig) -> bool {
    describes(
        c,
        "CPU Usage"@,
        "%"@,
        seq![
            (262u32, "C4"@),
            (294u32, "D4"@),
            (330u32, "E4"@),
            (349u32, "F4"@),
            (392u32, "G4"@),
            (440u32, "A4"@),
            (494u32, "B4"@),
            (523u32, "C5"@),
        ],
        seq![
            "#88E0EF"@,
            "#39C0ED"@,
            "#218380"@,
            "#126E82"@,
            "#145DA0"@,
            "#0F4C75"@,
            "#3282B8"@,
            "#118AB2"@,
        ],
        None,
    )
}

/// The `memory_usage` entry: Memory Usage, in %.
pub open spec fn is_memory_usage_entry(c: MetricConfig) -> bool {
    describes(
        c,
        "Memory Usage"@,
        "%"@,
        seq![
            (277u32, "C#4"@),
            (311u32, "D#4"@),
            (349u32, "F4"@),
            (370u32, "F#4"@),
            (415u32, "G#4"@),
            (466u32, "A#4"@),
            (523u32, "C5"@),
            (554u32, "C#5"@),
        ],
        seq![
            "#D4F5FF"@,
            "#A7E9FF"@,
            "#56CCF2"@,
            "#29ADB2"@,
            "#247BA0"@,
            "#1E3A8A"@,
            "#2A9D8F"@,
            "#81B29A"@,
        ],
        None,
    )
}

/// The `pod_status` entry: Pod Status, in no unit.
pub open spec fn is_pod_status_entry(c: MetricConfig) -> bool {
    describes(
        c,
        "Pod Status"@,
        ""@,
        seq![
            (220u32, "A3"@),
            (262u32, "C4"@),
            (330u32, "E4"@),
            (392u32, "G4"@),
        ],
        seq![
            "#86EF7D"@,
            "#22C55E"@,
            "#16A34A"@,
            "#065F46"@,
        ],
        Some(seq![
            ("Running"@, 3usize),
            ("Pending"@, 1usize),
            ("Succeeded"@, 3usize),
            ("Failed"@, 0usize),
            ("Unknown"@, 0usize),
        ]),
    )
}

/// The `http_latency` entry: HTTP Latency, in ms.
pub open spec fn is_http_latency_entry(c: MetricConfig) -> bool {
    describes(
        c,
        "HTTP Latency"@,
        "ms"@,
        seq![
            (294u32, "D4"@),
            (330u32, "E4"@),
            (370u32, "F#4"@),
            (415u32, "G#4"@),
            (466u32, "A#4"@),
            (523u32, "C5"@),
            (587u32, "D5"@),
            (659u32, "E5"@),
        ],
        seq![
            "#FFE5D9"@,
            "#FFCAD4"@,
            "#F4ACB7"@,
            "#F46036"@,
            "#E5383B"@,
            "#B22222"@,
            "#8B0000"@,
            "#DC143C"@,
        ],
        None,
    )
}

/// The `errors_per_second` entry: Errors/Second, in err/s.
pub open spec fn is_errors_per_second_entry(c: MetricConfig) -> bool {
    describes(
        c,
        "Errors/Second"@,
        "err/s"@,
        seq![
            (131u32, "C3"@),
            (147u32, "D3"@),
            (165u32, "E3"@),
            (175u32, "F3"@),
            (196u32, "G3"@),
            (220u32, "A3"@),
            (247u32, "B3"@),
            (262u32, "C4"@),
        ],
        seq![
            "#FFF2CC"@,
            "#FFD65E"@,
            "#FFA41B"@,
            "#F94144"@,
            "#F3722C"@,
            "#F8961E"@,
            "#F9C74F"@,
            "#90BE6D"@,
        ],
        None,
    )
}

/// The `replicas` entry: Replica Count, in Count.
pub open spec fn is_replicas_entry(c: MetricConfig) -> bool {
    describes(
        c,
        "Replica Count"@,
        "Count"@,
        seq![
            (262u32, "C4"@),
            (277u32, "C#4"@),
            (294u32, "D4"@),
            (311u32, "D#4"@),
            (330u32, "E4"@),
            (349u32, "F4"@),
            (370u32, "F#4"@),
            (392u32, "G4"@),
        ],
        seq![
            "#E0F7FA"@,
            "#B2EBF2"@,
            "#80DEEA"@,
            "#4DD0E1"@,
            "#26C6DA"@,
            "#00BCD4"@,
            "#00ACC1"@,
            "#0097A7"@,
        ],
        None,
    )
}

/// The `node_pressure` entry: Node Pressure, in no unit.
pub open spec fn is_node_pressure_entry(c: MetricConfig) -> bool {
    describes(
        c,
        "Node Pressure"@,
        ""@,
        seq![
            (262u32, "C4"@),
            (294u32, "D4"@),
            (330u32, "E4"@),
            (349u32, "F4"@),
        ],
        seq![
            "#FFFFFF"@,
            "#F0F4C3"@,
            "#D4E157"@,
            "#A4A71D"@,
        ],
        Some(seq![
            ("False"@, 0usize),
            ("True"@, 3usize),
        ]),
    )
}

fn cpu_usage_config() -> (r: MetricConfig)
    ensures
        is_cpu_usage_entry(r),
        all_marked(r.colors@),
{
    let notes = vec![
        Note::new(262, "C4"),
        Note::new(294, "D4"),
        Note::new(330, "E4"),
        Note::new(349, "F4"),
        Note::new(392, "G4"),
        Note::new(440, "A4"),
        Note::new(494, "B4"),
        Note::new(523, "C5"),
    ];
    let colors = vec![
        String::from_str("#88E0EF"),
        String::from_str("#39C0ED"),
        String::from_str("#218380"),
        String::from_str("#126E82"),
        String::from_str("#145DA0"),
        String::from_str("#0F4C75"),
        String::from_str("#3282B8"),
        String::from_str("#118AB2"),
    ];
    proof {
        reveal_strlit("#88E0EF");
        reveal_strlit("#39C0ED");
        reveal_strlit("#218380");
        reveal_strlit("#126E82");
        reveal_strlit("#145DA0");
        reveal_strlit("#0F4C75");
        reveal_strlit("#3282B8");
        reveal_strlit("#118AB2");
    }
    let r = MetricConfig {
        metric_name: String::from_str("CPU Usage"),
        unit: String::from_str("%"),
        notes,
        colors,
        status_map: None,
    };
    assert(r.notes@.map_values(|n: Note| (n.frequency, n.name@)) =~= seq![
        (262u32, "C4"@),
        (294u32, "D4"@),
        (330u32, "E4"@),
        (349u32, "F4"@),
        (392u32, "G4"@),
        (440u32, "A4"@),
        (494u32, "B4"@),
        (523u32, "C5"@),
    ]);
    assert(r.colors@.map_values(|s: String| s@) =~= seq![
        "#88E0EF"@,
        "#39C0ED"@,
        "#218380"@,
        "#126E82"@,
        "#145DA0"@,
        "#0F4C75"@,
        "#3282B8"@,
        "#118AB2"@,
    ]);
    r
}

fn memory_usage_config() -> (r: MetricConfig)
    ensures
        is_memory_usage_entry(r),
        all_marked(r.colors@),
{
    let notes = vec![
        Note::new(277, "C#4"),
        Note::new(311, "D#4"),
        Note::new(349, "F4"),
        Note::new(370, "F#4"),
        Note::new(415, "G#4"),
        Note::new(466, "A#4"),
        Note::new(523, "C5"),
        Note::new(554, "C#5"),
    ];
    let colors = vec![
        String::from_str("#D4F5FF"),
        String::from_str("#A7E9FF"),
        String::from_str("#56CCF2"),
        String::from_str("#29ADB2"),
        String::from_str("#247BA0"),
        String::from_str("#1E3A8A"),
        String::from_str("#2A9D8F"),
        String::from_str("#81B29A"),
    ];
    proof {
        reveal_strlit("#D4F5FF");
        reveal_strlit("#A7E9FF");
        reveal_strlit("#56CCF2");
        reveal_strlit("#29ADB2");
        reveal_strlit("#247BA0");
        reveal_strlit("#1E3A8A");
        reveal_strlit("#2A9D8F");
        reveal_strlit("#81B29A");
    }
    let r = MetricConfig {
        metric_name: String::from_str("Memory Usage"),
        unit: String::from_str("%"),
        notes,
        colors,
        status_map: None,
    };
    assert(r.notes@.map_values(|n: Note| (n.frequency, n.name@)) =~= seq![
        (277u32, "C#4"@),
        (311u32, "D#4"@),
        (349u32, "F4"@),
        (370u32, "F#4"@),
        (415u32, "G#4"@),
        (466u32, "A#4"@),
        (523u32, "C5"@),
        (554u32, "C#5"@),
    ]);
    assert(r.colors@.map_values(|s: String| s@) =~= seq![
        "#D4F5FF"@,
        "#A7E9FF"@,
        "#56CCF2"@,
        "#29ADB2"@,
        "#247BA0"@,
        "#1E3A8A"@,
        "#2A9D8F"@,
        "#81B29A"@,
    ]);
    r
}

fn pod_status_config() -> (r: MetricConfig)
    ensures
        is_pod_status_entry(r),
        all_marked(r.colors@),
{
    let mut status: Vec<(String, usize)> = Vec::new();
    status.push((String::from_str("Running"), 3));
    status.push((String::from_str("Pending"), 1));
    status.push((String::from_str("Succeeded"), 3));
    status.push((String::from_str("Failed"), 0));
    status.push((String::from_str("Unknown"), 0));
    let notes = vec![
        Note::new(220, "A3"),
        Note::new(262, "C4"),
        Note::new(330, "E4"),
        Note::new(392, "G4"),
    ];
    let colors = vec![
        String::from_str("#86EF7D"),
        String::from_str("#22C55E"),
        String::from_str("#16A34A"),
        String::from_str("#065F46"),
    ];
    proof {
        reveal_strlit("#86EF7D");
        reveal_strlit("#22C55E");
        reveal_strlit("#16A34A");
        reveal_strlit("#065F46");
    }
    let r = MetricConfig {
        metric_name: String::from_str("Pod Status"),
        unit: String::from_str(""),
        notes,
        colors,
        status_map: Some(status),
    };
    assert(r.notes@.map_values(|n: Note| (n.frequency, n.name@)) =~= seq![
        (220u32, "A3"@),
        (262u32, "C4"@),
        (330u32, "E4"@),
        (392u32, "G4"@),
    ]);
    assert(r.colors@.map_values(|s: String| s@) =~= seq![
        "#86EF7D"@,
        "#22C55E"@,
        "#16A34A"@,
        "#065F46"@,
    ]);
    assert(status@.map_values(|e: (String, usize)| (e.0@, e.1)) =~= seq![
        ("Running"@, 3usize),
        ("Pending"@, 1usize),
        ("Succeeded"@, 3usize),
        ("Failed"@, 0usize),
        ("Unknown"@, 0usize),
    ]);
    r
}

fn http_latency_config() -> (r: MetricConfig)
    ensures
        is_http_latency_entry(r),
        all_marked(r.colors@),
{
    let notes = vec![
        Note::new(294, "D4"),
        Note::new(330, "E4"),
        Note::new(370, "F#4"),
        Note::new(415, "G#4"),
        Note::new(466, "A#4"),
        Note::new(523, "C5"),
        Note::new(587, "D5"),
        Note::new(659, "E5"),
    ];
    let colors = vec![
        String::from_str("#FFE5D9"),
        String::from_str("#FFCAD4"),
        String::from_str("#F4ACB7"),
        String::from_str("#F46036"),
        String::from_str("#E5383B"),
        String::from_str("#B22222"),
        String::from_str("#8B0000"),
        String::from_str("#DC143C"),
    ];
    proof {
        reveal_strlit("#FFE5D9");
        reveal_strlit("#FFCAD4");
        reveal_strlit("#F4ACB7");
        reveal_strlit("#F46036");
        reveal_strlit("#E5383B");
        reveal_strlit("#B22222");
        reveal_strlit("#8B0000");
        reveal_strlit("#DC143C");
    }
    let r = MetricConfig {
        metric_name: String::from_str("HTTP Latency"),
        unit: String::from_str("ms"),
        notes,
        colors,
        status_map: None,
    };
    assert(r.notes@.map_values(|n: Note| (n.frequency, n.name@)) =~= seq![
        (294u32, "D4"@),
        (330u32, "E4"@),
        (370u32, "F#4"@),
        (415u32, "G#4"@),
        (466u32, "A#4"@),
        (523u32, "C5"@),
        (587u32, "D5"@),
        (659u32, "E5"@),
    ]);
    assert(r.colors@.map_values(|s: String| s@) =~= seq![
        "#FFE5D9"@,
        "#FFCAD4"@,
        "#F4ACB7"@,
        "#F46036"@,
        "#E5383B"@,
        "#B22222"@,
        "#8B0000"@,
        "#DC143C"@,
    ]);
    r
}

fn errors_per_second_config() -> (r: MetricConfig)
    ensures
        is_errors_per_second_entry(r),
        all_marked(r.colors@),
{
    let notes = vec![
        Note::new(131, "C3"),
        Note::new(147, "D3"),
        Note::new(165, "E3"),
        Note::new(175, "F3"),
        Note::new(196, "G3"),
        Note::new(220, "A3"),
        Note::new(247, "B3"),
        Note::new(262, "C4"),
    ];
    let colors = vec![
        String::from_str("#FFF2CC"),
        String::from_str("#FFD65E"),
        String::from_str("#FFA41B"),
        String::from_str("#F94144"),
        String::from_str("#F3722C"),
        String::from_str("#F8961E"),
        String::from_str("#F9C74F"),
        String::from_str("#90BE6D"),
    ];
    proof {
        reveal_strlit("#FFF2CC");
        reveal_strlit("#FFD65E");
        reveal_strlit("#FFA41B");
        reveal_strlit("#F94144");
        reveal_strlit("#F3722C");
        reveal_strlit("#F8961E");
        reveal_strlit("#F9C74F");
        reveal_strlit("#90BE6D");
    }
    let r = MetricConfig {
        metric_name: String::from_str("Errors/Second"),
        unit: String::from_str("err/s"),
        notes,
        colors,
        status_map: None,
    };
    assert(r.notes@.map_values(|n: Note| (n.frequency, n.name@)) =~= seq![
        (131u32, "C3"@),
        (147u32, "D3"@),
        (165u32, "E3"@),
        (175u32, "F3"@),
        (196u32, "G3"@),
        (220u32, "A3"@),
        (247u32, "B3"@),
        (262u32, "C4"@),
    ]);
    assert(r.colors@.map_values(|s: String| s@) =~= seq![
        "#FFF2CC"@,
        "#FFD65E"@,
        "#FFA41B"@,
        "#F94144"@,
        "#F3722C"@,
        "#F8961E"@,
        "#F9C74F"@,
        "#90BE6D"@,
    ]);
    r
}

fn replicas_config() -> (r: MetricConfig)
    ensures
        is_replicas_entry(r),
        all_marked(r.colors@),
{
    let notes = vec![
        Note::new(262, "C4"),
        Note::new(277, "C#4"),
        Note::new(294, "D4"),
        Note::new(311, "D#4"),
        Note::new(330, "E4"),
        Note::new(349, "F4"),
        Note::new(370, "F#4"),
        Note::new(392, "G4"),
    ];
    let colors = vec![
        String::from_str("#E0F7FA"),
        String::from_str("#B2EBF2"),
        String::from_str("#80DEEA"),
        String::from_str("#4DD0E1"),
        String::from_str("#26C6DA"),
        String::from_str("#00BCD4"),
        String::from_str("#00ACC1"),
        String::from_str("#0097A7"),
    ];
    proof {
        reveal_strlit("#E0F7FA");
        reveal_strlit("#B2EBF2");
        reveal_strlit("#80DEEA");
        reveal_strlit("#4DD0E1");
        reveal_strlit("#26C6DA");
        reveal_strlit("#00BCD4");
        reveal_strlit("#00ACC1");
        reveal_strlit("#0097A7");
    }
    let r = MetricConfig {
        metric_name: String::from_str("Replica Count"),
        unit: String::from_str("Count"),
        notes,
        colors,
        status_map: None,
    };
    assert(r.notes@.map_values(|n: Note| (n.frequency, n.name@)) =~= seq![
        (262u32, "C4"@),
        (277u32, "C#4"@),
        (294u32, "D4"@),
        (311u32, "D#4"@),
        (330u32, "E4"@),
        (349u32, "F4"@),
        (370u32, "F#4"@),
        (392u32, "G4"@),
    ]);
    assert(r.colors@.map_values(|s: String| s@) =~= seq![
        "#E0F7FA"@,
        "#B2EBF2"@,
        "#80DEEA"@,
        "#4DD0E1"@,
        "#26C6DA"@,
        "#00BCD4"@,
        "#00ACC1"@,
        "#0097A7"@,
    ]);
    r
}

fn node_pressure_config() -> (r: MetricConfig)
    ensures
        is_node_pressure_entry(r),
        all_marked(r.colors@),
{
    let mut status: Vec<(String, usize)> = Vec::new();
    status.push((String::from_str("False"), 0));
    status.push((String::from_str("True"), 3));
    let notes = vec![
        Note::new(262, "C4"),
        Note::new(294, "D4"),
        Note::new(330, "E4"),
        Note::new(349, "F4"),
    ];
    let colors = vec![
        String::from_str("#FFFFFF"),
        String::from_str("#F0F4C3"),
        String::from_str("#D4E157"),
        String::from_str("#A4A71D"),
    ];
    proof {
        reveal_strlit("#FFFFFF");
        reveal_strlit("#F0F4C3");
        reveal_strlit("#D4E157");
        reveal_strlit("#A4A71D");
    }
    let r = MetricConfig {
        metric_name: String::from_str("Node Pressure"),
        unit: String::from_str(""),
        notes,
        colors,
        status_map: Some(status),
    };
    assert(r.notes@.map_values(|n: Note| (n.frequency, n.name@)) =~= seq![
        (262u32, "C4"@),
        (294u32, "D4"@),
        (330u32, "E4"@),
        (349u32, "F4"@),
    ]);
    assert(r.colors@.map_values(|s: String| s@) =~= seq![
        "#FFFFFF"@,
        "#F0F4C3"@,
        "#D4E157"@,
        "#A4A71D"@,
    ]);
    assert(status@.map_values(|e: (String, usize)| (e.0@, e.1)) =~= seq![
        ("False"@, 0usize),
        ("True"@, 3usize),
    ]);
    r
}

/// The table of the seven known metrics, built once and only read after.
pub fn get_sound_map() -> (r: SoundMap)
    ensures
        r.well_formed(),
        forall|i: int| 0 <= i < r.entries@.len() ==> all_marked(#[trigger] r.entries@[i].1.colors@),
        r.keys() == seq![
            "cpu_usage"@,
            "memory_usage"@,
            "pod_status"@,
            "http_latency"@,
            "errors_per_second"@,
            "replicas"@,
            "node_pressure"@,
        ],
        is_cpu_usage_entry(r.entries@[0].1),
        is_memory_usage_entry(r.entries@[1].1),
        is_pod_status_entry(r.entries@[2].1),
        is_http_latency_entry(r.entries@[3].1),
        is_errors_per_second_entry(r.entries@[4].1),
        is_replicas_entry(r.entries@[5].1),
        is_node_pressure_entry(r.entries@[6].1),
{
    let mut entries: Vec<(String, MetricConfig)> = Vec::new();
    entries.push((String::from_str("cpu_usage"), cpu_usage_config()));
    entries.push((String::from_str("memory_usage"), memory_usage_config()));
    entries.push((String::from_str("pod_status"), pod_status_config()));
    entries.push((String::from_str("http_latency"), http_latency_config()));
    entries.push((String::from_str("errors_per_second"), errors_per_second_config()));
    entries.push((String::from_str("replicas"), replicas_config()));
    entries.push((String::from_str("node_pressure"), node_pressure_config()));
    let r = SoundMap { entries };
    proof {
        assert forall|i: int| 0 <= i < r.entries@.len() implies r.entries@[i].1.notes@.len() > 0 by {
            assert(r.entries@[i].1.notes@.map_values(|n: Note| (n.frequency, n.name@)).len() > 0);
        }
        assert(r.keys() =~= seq![
            "cpu_usage"@,
            "memory_usage"@,
            "pod_status"@,
            "http_latency"@,
            "errors_per_second"@,
            "replicas"@,
            "node_pressure"@,
        ]);
    }
    r
}

} // verus!
