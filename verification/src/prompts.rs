//! The fixed texts from which the system instructions of the two agent
//! variants are assembled.

use vstd::prelude::*;
use vstd::string::StringExecFns;

verus! {

/// The role the model takes and the task it is given.
pub const ROLE_AND_TASK: &'static str = "\n    You are an expert software engineer and technical writer tasked with analyzing a codebase.\n    Your job is to understand the code structure, architecture, and key components, then write a comprehensive technical document about it.\n    You will be provided with tools to explore the codebase and extract information.\n";

/// General guidance for analysing a codebase.
pub const GENERAL_ANALYSIS_GUIDELINES: &'static str = "\n    When analyzing a codebase:\n    - Focus on understanding the overall architecture and design patterns.\n    - Identify key components, modules, and their relationships.\n    - Look for documentation, comments, and naming conventions that provide insight.\n    - Consider how the code is organized and structured.\n    - Pay attention to the dependencies and how they are used.\n    - Note any unusual or interesting patterns in the code.\n";

/// Guidance for handling the prompt and the codebase.
pub const INPUT_PROCESSING_GUIDELINES: &'static str = "\n    When processing the prompt and codebase:\n    - Carefully read and understand the prompt to determine what aspects of the code to focus on.\n    - Adapt your analysis approach based on the codebase and the prompt's requirements.\n    - Be thorough but focus on the most important aspects as specified in the prompt.\n    - Provide clear, structured summaries of your findings in your final response.\n    - Handle errors gracefully and report them clearly if they occur but don't let them halt the rest of the analysis.\n";

/// Strategies for exploring code.
pub const CODE_ANALYSIS_STRATEGIES: &'static str = "\n    When analysing code:\n    - Start by exploring the directory structure to understand the project organisation.\n    - Identify key files like README, configuration files, or main entry points.\n    - Ignore temporary files and directories like node_modules, .git, etc.\n    - Analyse relationships between components (e.g., imports, function calls).\n    - Look for patterns in the code organisation (e.g., line counts, TODOs).\n    - Summarise your findings to help someone understand the codebase quickly, tailored to the prompt.\n";

/// The planning pattern of the plain iterative agent.
pub const REACT_PLANNING_STRATEGY: &'static str = "\n    You should follow the ReAct pattern:\n    1. Thought: Reason about what you need to do next\n    2. Action: Use one of the available tools\n    3. Observation: Review the results of the tool\n    4. Repeat until you have enough information to provide a final answer\n";

/// The planning pattern of the agent that reflects on its steps.
pub const REFLEXION_PLANNING_STRATEGY: &'static str = "\n    You should follow the Reflexion pattern (an extension of ReAct):\n    1. Thought: Reason about what you need to do next\n    2. Action: Use one of the available tools\n    3. Observation: Review the results of the tool\n    4. Reflection: Analyze your approach, identify any mistakes or inefficiencies, and consider how to improve\n    5. Repeat until you have enough information to provide a final answer\n";

/// What the final answer must look like.
pub const QUALITY_REQUIREMENTS: &'static str = "\n    Your final answer should:\n    - Be well-structured and easy to read\n    - Include relevant code snippets or examples where helpful\n    - Explain complex concepts in clear, concise language\n    - Highlight important patterns, design decisions, and architectural choices\n    - Address all the requirements specified in the prompt\n    - Include diagrams using mermaid syntax where appropriate to visualize relationships\n";

/// The directive added to the system instructions for a reflection call.
pub const REFLECTION_PROMPT: &'static str = "\n    Before responding, reflect on your previous actions. Were they effective? How can you improve your approach? Incorporate these reflections into your response.\n";

/// The six sections of the plain agent's instructions, separated by blank lines.
pub open spec fn react_instructions() -> Seq<char> {
    ROLE_AND_TASK@
        + "\n\n"@ + GENERAL_ANALYSIS_GUIDELINES@
        + "\n\n"@ + INPUT_PROCESSING_GUIDELINES@
        + "\n\n"@ + CODE_ANALYSIS_STRATEGIES@
        + "\n\n"@ + REACT_PLANNING_STRATEGY@
        + "\n\n"@ + QUALITY_REQUIREMENTS@
}

/// The system instructions of the plain iterative agent.
pub fn react_system_prompt() -> (r: String)
    ensures
        r@ == react_instructions(),
{
    let mut r = String::from_str(ROLE_AND_TASK);
    r.append("\n\n");
    r.append(GENERAL_ANALYSIS_GUIDELINES);
    r.append("\n\n");
    r.append(INPUT_PROCESSING_GUIDELINES);
    r.append("\n\n");
    r.append(CODE_ANALYSIS_STRATEGIES);
    r.append("\n\n");
    r.append(REACT_PLANNING_STRATEGY);
    r.append("\n\n");
    r.append(QUALITY_REQUIREMENTS);
    r
}

/// The six sections of the reflecting agent's instructions, separated by blank lines.
pub open spec fn reflexion_instructions() -> Seq<char> {
    ROLE_AND_TASK@
        + "\n\n"@ + GENERAL_ANALYSIS_GUIDELINES@
        + "\n\n"@ + INPUT_PROCESSING_GUIDELINES@
        + "\n\n"@ + CODE_ANALYSIS_STRATEGIES@
        + "\n\n"@ + REFLEXION_PLANNING_STRATEGY@
        + "\n\n"@ + QUALITY_REQUIREMENTS@
}

/// The system instructions of the agent that reflects on its steps.
pub fn reflexion_system_prompt() -> (r: String)
    ensures
        r@ == reflexion_instructions(),
{
    let mut r = String::from_str(ROLE_AND_TASK);
    r.append("\n\n");
    r.append(GENERAL_ANALYSIS_GUIDELINES);
    r.append("\n\n");
    r.append(INPUT_PROCESSING_GUIDELINES);
    r.append("\n\n");
    r.append(CODE_ANALYSIS_STRATEGIES);
    r.append("\n\n");
    r.append(REFLEXION_PLANNING_STRATEGY);
    r.append("\n\n");
    r.append(QUALITY_REQUIREMENTS);
    r
}

} // verus!
