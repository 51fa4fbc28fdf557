//! The scripts that the host evaluates for the terminal. Each evaluates to a JSON text.

use vstd::prelude::*;

verus! {

/// Switches the host's standard input to raw mode.
pub const RAW_ON: &'static str = r#"(function(){try{if(process.stdin && typeof process.stdin.setRawMode==='function'){process.stdin.setRawMode(true);return JSON.stringify({ok:true});}else{return JSON.stringify({ok:false,err:'setRawMode not supported'});} }catch(e){return JSON.stringify({ok:false,err:String(e)});} })();"#;

/// Switches the host's standard input back to line mode.
pub const RAW_OFF: &'static str = r#"(function(){try{if(process.stdin && typeof process.stdin.setRawMode==='function'){process.stdin.setRawMode(false);return JSON.stringify({ok:true});}else{return JSON.stringify({ok:false,err:'setRawMode not supported'});} }catch(e){return JSON.stringify({ok:false,err:String(e)});} })();"#;

/// Asks for the size of the host's terminal.
pub const GET_SIZE: &'static str = r#"(function(){try{const cols=process.stdout.columns||80;const rows=process.stdout.rows||24;return JSON.stringify({ok:true,cols,rows});}catch(e){return JSON.stringify({ok:false,err:String(e)});} })();"#;

/// The script that brings the host's terminal into the given input mode.
pub open spec fn mode_script(line_input: bool) -> Seq<char> {
    if line_input {
        RAW_OFF@
    } else {
        RAW_ON@
    }
}

/// The script that brings the host's terminal into the given input mode: raw mode unless input
/// is handed over line by line.
pub fn input_mode_script(line_input: bool) -> (script: &'static str)
    ensures
        script@ == mode_script(line_input),
{
    if !line_input {
        RAW_ON
    } else {
        RAW_OFF
    }
}

} // verus!
