use vstd::prelude::*;

verus! {

/// The closed set of supported hardware models. Each model maps to exactly
/// one firmware repository; the 200/300/400 models share one.
#[derive(Clone, Copy, PartialEq, Eq, Structural, Debug)]
pub enum HardwareType {
    IRock424,
    IRock212,
    IRock200,
    IRock300,
    IRock400,
}

impl HardwareType {
    /// The repository identifier (one `owner/name` pair) this model's
    /// firmware releases are published under.
    pub open spec fn repo_spec(self) -> Seq<char> {
        match self {
            HardwareType::IRock424 => "Arvernus/iRock-424"@,
            HardwareType::IRock212 => "Arvernus/iRock-212"@,
            HardwareType::IRock200 => "Arvernus/iRock-200-300-400"@,
            HardwareType::IRock300 => "Arvernus/iRock-200-300-400"@,
            HardwareType::IRock400 => "Arvernus/iRock-200-300-400"@,
        }
    }

    pub fn repo(&self) -> (r: &'static str)
        ensures
            r@ == self.repo_spec(),
    {
        match self {
            HardwareType::IRock424 => "Arvernus/iRock-424",
            HardwareType::IRock212 => "Arvernus/iRock-212",
            HardwareType::IRock200 | HardwareType::IRock300 | HardwareType::IRock400 => {
                "Arvernus/iRock-200-300-400"
            },
        }
    }

    pub open spec fn all_spec() -> Seq<HardwareType> {
        seq![
            HardwareType::IRock424,
            HardwareType::IRock212,
            HardwareType::IRock200,
            HardwareType::IRock300,
            HardwareType::IRock400,
        ]
    }

    /// Every supported model, in presentation order.
    pub fn all() -> (r: Vec<HardwareType>)
        ensures
            r@ == Self::all_spec(),
    {
        let mut v: Vec<HardwareType> = Vec::new();
        v.push(HardwareType::IRock424);
        v.push(HardwareType::IRock212);
        v.push(HardwareType::IRock200);
        v.push(HardwareType::IRock300);
        v.push(HardwareType::IRock400);
        proof {
            assert(v@ =~= Self::all_spec());
        }
        v
    }

    /// Every supported model's repository identifier is one well-formed
    /// `owner/name` pair, so a catalog fetch for it is never rejected as
    /// malformed.
    pub proof fn lemma_repo_well_formed(self)
        ensures
            crate::repo::repo_well_formed(self.repo_spec()),
    {
        reveal_strlit("Arvernus/iRock-424");
        reveal_strlit("Arvernus/iRock-212");
        reveal_strlit("Arvernus/iRock-200-300-400");
        reveal_with_fuel(crate::repo::count_char, 32);
        match self {
            HardwareType::IRock424 => {
                assert(crate::repo::count_char("Arvernus/iRock-424"@, '/') == 1);
            },
            HardwareType::IRock212 => {
                assert(crate::repo::count_char("Arvernus/iRock-212"@, '/') == 1);
            },
            HardwareType::IRock200 | HardwareType::IRock300 | HardwareType::IRock400 => {
                assert(crate::repo::count_char("Arvernus/iRock-200-300-400"@, '/') == 1)
                   ;
            },
        }
    }

    pub open spec fn display_name_spec(self) -> Seq<char> {
        match self {
            HardwareType::IRock424 => "iRock 424"@,
            HardwareType::IRock212 => "iRock 212"@,
            HardwareType::IRock200 => "iRock 200"@,
            HardwareType::IRock300 => "iRock 300"@,
            HardwareType::IRock400 => "iRock 400"@,
        }
    }

    /// The name shown to the operator for this model.
    pub fn display_name(&self) -> (r: &'static str)
        ensures
            r@ == self.display_name_spec(),
    {
        match self {
            HardwareType::IRock424 => "iRock 424",
            HardwareType::IRock212 => "iRock 212",
            HardwareType::IRock200 => "iRock 200",
            HardwareType::IRock300 => "iRock 300",
            HardwareType::IRock400 => "iRock 400",
        }
    }
}

} // verus!
