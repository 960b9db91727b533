use vstd::prelude::*;
use vstd::string::StringExecFns;

verus! {

/// The fixed load address the external flashing tool programs the firmware
/// image to.
pub const FLASH_LOAD_ADDRESS: u32 = 0x0800_0000;

/// What one flash run is asked to program: the local firmware image.
pub struct FlashConfig {
    pub firmware_path: String,
}

/// The outcome of one flash run, as surfaced to the operator.
#[derive(Debug)]
pub struct FlashResult {
    pub success: bool,
    pub message: String,
}

#[verifier::ext_equal]
pub struct FlashResultModel {
    pub success: bool,
    pub message: Seq<char>,
}

impl View for FlashResult {
    type V = FlashResultModel;

    open spec fn view(&self) -> FlashResultModel {
        FlashResultModel { success: self.success, message: self.message@ }
    }
}

/// Classify the flashing tool's outcome: the run succeeded exactly when the
/// tool finished without an error, and the tool's own report is passed
/// through verbatim either way.
pub fn flash_hardware(tool_report: Result<String, String>) -> (r: FlashResult)
    ensures
        r.success == tool_report is Ok,
        r.message@ == (match tool_report {
            Ok(m) => m@,
            Err(m) => m@,
        }),
{
    match tool_report {
        Ok(m) => FlashResult { success: true, message: m },
        Err(m) => FlashResult { success: false, message: m },
    }
}

/// Report the auxiliary data gathered before a flash run; nothing beyond a
/// fixed notice is needed, so the call always succeeds with it.
pub fn fetch_flash_data() -> (r: Result<String, String>)
    ensures
        r is Ok,
        r matches Ok(m) ==> m@ == "Daten abgerufen (Platzhalter)"@,
{
    Ok(String::from_str("Daten abgerufen (Platzhalter)"))
}

} // verus!
