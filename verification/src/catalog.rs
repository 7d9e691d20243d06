//! The supplement protocol: which supplements there are, and in which hours
//! of the day each is to be taken.

use vstd::prelude::*;
use vstd::string::*;

verus! {

/// One supplement of the protocol.
#[derive(Debug, Clone)]
pub struct SupplementProtocol {
    pub name: String,
    pub dosage: String,
    /// `morning`, `afternoon` or `night`.
    pub category: String,
    /// First hour of the day in which it is to be taken.
    pub first_hour: u32,
    /// Last hour of the day in which it is to be taken.
    pub last_hour: u32,
    pub benefit: String,
}

/// What a `SupplementProtocol` says.
pub struct SupplementProtocolView {
    pub name: Seq<char>,
    pub dosage: Seq<char>,
    pub category: Seq<char>,
    pub first_hour: int,
    pub last_hour: int,
    pub benefit: Seq<char>,
}

impl View for SupplementProtocol {
    type V = SupplementProtocolView;

    open spec fn view(&self) -> SupplementProtocolView {
        SupplementProtocolView {
            name: self.name@,
            dosage: self.dosage@,
            category: self.category@,
            first_hour: self.first_hour as int,
            last_hour: self.last_hour as int,
            benefit: self.benefit@,
        }
    }
}

/// The views of a protocol, entry by entry.
pub open spec fn protocol_views(catalog: Seq<SupplementProtocol>) -> Seq<SupplementProtocolView> {
    catalog.map_values(|protocol: SupplementProtocol| protocol@)
}

/// Whether `hour` lies in the hours of a supplement, both ends counted.
pub open spec fn in_window(protocol: SupplementProtocolView, hour: int) -> bool {
    protocol.first_hour <= hour <= protocol.last_hour
}

impl SupplementProtocol {
    /// Whether `hour` lies in the hours of this supplement.
    pub fn covers(&self, hour: u32) -> (inside: bool)
        ensures
            inside == in_window(self@, hour as int),
    {
        self.first_hour <= hour && hour <= self.last_hour
    }
}

/// The protocol as shipped, in the order in which reminders are considered.
pub open spec fn default_catalog() -> Seq<SupplementProtocolView> {
    seq![
        SupplementProtocolView {
            name: "Winfit"@,
            dosage: "1 saqueta"@,
            category: "morning"@,
            first_hour: 8,
            last_hour: 11,
            benefit: "Vitamina C + Zinco — sistema imunitário e recuperação capilar"@,
        },
        SupplementProtocolView {
            name: "Vitamina D3"@,
            dosage: "2000 IU"@,
            category: "morning"@,
            first_hour: 8,
            last_hour: 12,
            benefit: "Absorção de cálcio e regulação imunitária"@,
        },
        SupplementProtocolView {
            name: "Ómega 3"@,
            dosage: "1 cápsula"@,
            category: "afternoon"@,
            first_hour: 12,
            last_hour: 15,
            benefit: "Anti-inflamatório e função cognitiva"@,
        },
        SupplementProtocolView {
            name: "Magnésio Bisglicinato"@,
            dosage: "1 cápsula"@,
            category: "night"@,
            first_hour: 22,
            last_hour: 23,
            benefit: "Proteção folicular e sistema nervoso"@,
        },
        SupplementProtocolView {
            name: "Noxarem (Melatonina 3mg)"@,
            dosage: "1 comprimido"@,
            category: "night"@,
            first_hour: 23,
            last_hour: 23,
            benefit: "Sincronização do ciclo circadiano"@,
        },
    ]
}

fn protocol(
    name: &str,
    dosage: &str,
    category: &str,
    first_hour: u32,
    last_hour: u32,
    benefit: &str,
) -> (entry: SupplementProtocol)
    ensures
        entry@ == (SupplementProtocolView {
            name: name@,
            dosage: dosage@,
            category: category@,
            first_hour: first_hour as int,
            last_hour: last_hour as int,
            benefit: benefit@,
        }),
{
    SupplementProtocol {
        name: String::from_str(name),
        dosage: String::from_str(dosage),
        category: String::from_str(category),
        first_hour,
        last_hour,
        benefit: String::from_str(benefit),
    }
}

/// Builds the protocol as shipped.
pub fn protocol_catalog() -> (catalog: Vec<SupplementProtocol>)
    ensures
        protocol_views(catalog@) == default_catalog(),
{
    let mut catalog: Vec<SupplementProtocol> = Vec::new();
    catalog.push(
        protocol(
            "Winfit",
            "1 saqueta",
            "morning",
            8,
            11,
            "Vitamina C + Zinco — sistema imunitário e recuperação capilar",
        ),
    );
    catalog.push(
        protocol(
            "Vitamina D3",
            "2000 IU",
            "morning",
            8,
            12,
            "Absorção de cálcio e regulação imunitária",
        ),
    );
    catalog.push(
        protocol(
            "Ómega 3",
            "1 cápsula",
            "afternoon",
            12,
            15,
            "Anti-inflamatório e função cognitiva",
        ),
    );
    catalog.push(
        protocol(
            "Magnésio Bisglicinato",
            "1 cápsula",
            "night",
            22,
            23,
            "Proteção folicular e sistema nervoso",
        ),
    );
    catalog.push(
        protocol(
            "Noxarem (Melatonina 3mg)",
            "1 comprimido",
            "night",
            23,
            23,
            "Sincronização do ciclo circadiano",
        ),
    );
    proof {
        assert(protocol_views(catalog@) =~= default_catalog());
    }
    catalog
}

} // verus!
