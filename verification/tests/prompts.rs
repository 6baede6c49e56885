use tech_writer::prompts::{
    react_system_prompt, reflexion_system_prompt, CODE_ANALYSIS_STRATEGIES,
    GENERAL_ANALYSIS_GUIDELINES, INPUT_PROCESSING_GUIDELINES, QUALITY_REQUIREMENTS,
    REACT_PLANNING_STRATEGY, REFLECTION_PROMPT, REFLEXION_PLANNING_STRATEGY, ROLE_AND_TASK,
};

#[test]
fn react_prompt_joins_its_sections() {
    let expected = [
        ROLE_AND_TASK,
        GENERAL_ANALYSIS_GUIDELINES,
        INPUT_PROCESSING_GUIDELINES,
        CODE_ANALYSIS_STRATEGIES,
        REACT_PLANNING_STRATEGY,
        QUALITY_REQUIREMENTS,
    ]
    .join("\n\n");
    assert_eq!(react_system_prompt(), expected);
}

#[test]
fn reflexion_prompt_joins_its_sections() {
    let expected = [
        ROLE_AND_TASK,
        GENERAL_ANALYSIS_GUIDELINES,
        INPUT_PROCESSING_GUIDELINES,
        CODE_ANALYSIS_STRATEGIES,
        REFLEXION_PLANNING_STRATEGY,
        QUALITY_REQUIREMENTS,
    ]
    .join("\n\n");
    assert_eq!(reflexion_system_prompt(), expected);
}

#[test]
fn prompts_differ_in_the_planning_section_only() {
    let react = react_system_prompt();
    let reflexion = reflexion_system_prompt();
    assert!(react.contains("You should follow the ReAct pattern:"));
    assert!(reflexion.contains("4. Reflection: Analyze your approach"));
    assert_eq!(
        react.replace(REACT_PLANNING_STRATEGY, REFLEXION_PLANNING_STRATEGY),
        reflexion
    );
}

#[test]
fn sections_keep_their_layout() {
    assert!(ROLE_AND_TASK.starts_with("\n    You are an expert software engineer"));
    assert!(ROLE_AND_TASK.ends_with("extract information.\n"));
    assert_eq!(
        REFLECTION_PROMPT,
        "\n    Before responding, reflect on your previous actions. Were they effective? How can you improve your approach? Incorporate these reflections into your response.\n"
    );
    assert_eq!(QUALITY_REQUIREMENTS.lines().count(), 8);
}
