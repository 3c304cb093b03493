use crate::dto::{QuestionDto, QUESTION_SECONDS};
use vstd::prelude::*;

verus! {

/// The text of the option numbered `n` of `q`, for `n` from 1 to 4.
pub open spec fn option_text(q: QuestionDto, n: i8) -> Seq<char> {
    if n == 1 {
        q.answer_1@
    } else if n == 2 {
        q.answer_2@
    } else if n == 3 {
        q.answer_3@
    } else {
        q.answer_4@
    }
}

/// `q` reads as the given question: its text, its four options, the number of
/// its correct option and its topic; its countdown is full.
pub open spec fn is_question(
    q: QuestionDto,
    text: Seq<char>,
    options: (Seq<char>, Seq<char>, Seq<char>, Seq<char>),
    good: i8,
    topic: Seq<char>,
) -> bool {
    &&& q.question_text@ == text
    &&& q.answer_1@ == options.0
    &&& q.answer_2@ == options.1
    &&& q.answer_3@ == options.2
    &&& q.answer_4@ == options.3
    &&& q.good_answer_number == good
    &&& q.topic@ == topic
    &&& q.remaining_time == QUESTION_SECONDS
}

/// The catalog of questions on Java, in order.
pub open spec fn java_catalog(qs: Seq<QuestionDto>) -> bool {
    &&& qs.len() == 35
    &&& is_question(
        qs[0],
        "In Java, what type is not a primitive data type ?"@,
        (
            "long"@,
            "double"@,
            "String"@,
            "char"@,
        ),
        3,
        "Java"@,
    )
    &&& is_question(
        qs[1],
        "In Java, what statement is true ?"@,
        (
            "A class may implement multiple interfaces and may extend one class maximum"@,
            "A class may implement multiple classes but is allowed to extend only one interface"@,
            "A class may implement multiple classes and may implement multiple interfaces"@,
            "A class must implement one interface and must extend one class"@,
        ),
        1,
        "Java"@,
    )
    &&& is_question(
        qs[2],
        "Which of the below is valid way to instantiate an array in Java ?"@,
        (
            "int myArray [] = {1, 3, 5};"@,
            "int myArray [] [] = {1,2,3,4};"@,
            "int [] myArray = (5, 4, 3);"@,
            "int [] myArray = {“1”, “2”, “3”};"@,
        ),
        1,
        "Java"@,
    )
    &&& is_question(
        qs[3],
        "In Java, what is the return type of the hashCode() method in the Object class ?"@,
        (
            "Object"@,
            "int"@,
            "long"@,
            "void"@,
        ),
        2,
        "Java"@,
    )
    &&& is_question(
        qs[4],
        "In Java, what does the expression float a = 35 / 0 return ?"@,
        (
            "0"@,
            "Not A Number"@,
            "Infinity"@,
            "RuntimeException"@,
        ),
        3,
        "Java"@,
    )
    &&& is_question(
        qs[5],
        "Evaluate the following Java expression, if x=3, y=5, and z=10 : ++z + y - y + z + x++"@,
        (
            "24"@,
            "23"@,
            "20"@,
            "25"@,
        ),
        4,
        "Java"@,
    )
    &&& is_question(
        qs[6],
        "In Java, which of the following tool is used to generate API documentation in HTML format from doc comments in source code ?"@,
        (
            "javap tool"@,
            "javaw command"@,
            "Javadoc tool"@,
            "javah command"@,
        ),
        3,
        "Java"@,
    )
    &&& is_question(
        qs[7],
        "In Java, which of the following creates a List of 3 visible items and multiple selections abled ?"@,
        (
            "new List(false, 3)"@,
            "new List(3, true)"@,
            "new List(true, 3)"@,
            "new List(3, false)"@,
        ),
        2,
        "Java"@,
    )
    &&& is_question(
        qs[8],
        "In Java, which of the following for loop declaration is NOT valid ?"@,
        (
            "for ( int i = 99; i >= 0; i / 9 )"@,
            "for ( int i = 7; i <= 77; i += 7 )"@,
            "for ( int i = 20; i >= 2; - -i )"@,
            "for ( int i = 2; i <= 20; i = 2* i )"@,
        ),
        1,
        "Java"@,
    )
    &&& is_question(
        qs[9],
        "In Java, which method of the Class.class is used to determine the name of a class represented by the class object as a String ?"@,
        (
            "getClass()"@,
            "intern()"@,
            "getName()"@,
            "toString()"@,
        ),
        3,
        "Java"@,
    )
    &&& is_question(
        qs[10],
        "In Java, in which process, a local variable has the same name as one of the instance variables ?"@,
        (
            "It has only methods"@,
            "Objects can't be created"@,
            "It has a fixed class name"@,
            "It has no class name"@,
        ),
        4,
        "Java"@,
    )
    &&& is_question(
        qs[11],
        "In Java, which package contains the Random class ?"@,
        (
            "java.util package"@,
            "java.lang package"@,
            "java.awt package"@,
            "java.io package"@,
        ),
        1,
        "Java"@,
    )
    &&& is_question(
        qs[12],
        "In Java, what do you mean by nameless objects ?"@,
        (
            "An object created by using the new keyword"@,
            "An object of a superclass created in the subclass"@,
            "An object without having any name but having a reference"@,
            "An object that has no reference"@,
        ),
        4,
        "Java"@,
    )
    &&& is_question(
        qs[13],
        "In Java, an interface with no fields or methods is known as a ______"@,
        (
            "Runnable interface"@,
            "Marker interface"@,
            "Abstract interface"@,
            "CharSequence interface"@,
        ),
        2,
        "Java"@,
    )
    &&& is_question(
        qs[14],
        "In Java, which of the following is an immediate subclass of the Panel class?"@,
        (
            "Applet class"@,
            "Window class"@,
            "Frame class"@,
            "Dialog class"@,
        ),
        1,
        "Java"@,
    )
    &&& is_question(
        qs[15],
        "In Java, which option is false about the final keyword ?"@,
        (
            "A final method cannot be overridden in its subclasses."@,
            "A final class cannot be extended."@,
            "A final class cannot extend other classes."@,
            "A final method can be inherited."@,
        ),
        3,
        "Java"@,
    )
    &&& is_question(
        qs[16],
        "In Java, which of these classes are the direct subclasses of the Throwable class ?"@,
        (
            "RuntimeException and Error class"@,
            "Exception and VirtualMachineError class"@,
            "Error and Exception class"@,
            "IOException and VirtualMachineError class"@,
        ),
        3,
        "Java"@,
    )
    &&& is_question(
        qs[17],
        "What do you mean by chained exceptions in Java ?"@,
        (
            "Exceptions occurred by the VirtualMachineError"@,
            "An exception caused by other exceptions"@,
            "Exceptions occur in chains with discarding the debugging information"@,
            "None of the above"@,
        ),
        2,
        "Java"@,
    )
    &&& is_question(
        qs[18],
        "In Java, in which memory a String is stored, when we create a string using new operator ?"@,
        (
            "Stack"@,
            "String memory"@,
            "Heap memory"@,
            "Random storage space"@,
        ),
        3,
        "Java"@,
    )
    &&& is_question(
        qs[19],
        "In Java, what is the use of the intern() method ?"@,
        (
            "It returns the existing string from memory"@,
            "It creates a new string in the database"@,
            "It modifies the existing string in the database"@,
            "None of the above"@,
        ),
        1,
        "Java"@,
    )
    &&& is_question(
        qs[20],
        "In Java, which of the following is a marker interface ?"@,
        (
            "Runnable interface"@,
            "Remote interface"@,
            "Readable interface"@,
            "Result interface"@,
        ),
        2,
        "Java"@,
    )
    &&& is_question(
        qs[21],
        "Which of the following is a reserved keyword in Java ?"@,
        (
            "object"@,
            "strictfp"@,
            "main"@,
            "system"@,
        ),
        2,
        "Java"@,
    )
    &&& is_question(
        qs[22],
        "In Java, which keyword is used for accessing the features of a package ?"@,
        (
            "package"@,
            "import"@,
            "extends"@,
            "export"@,
        ),
        2,
        "Java"@,
    )
    &&& is_question(
        qs[23],
        "In java, jar stands for_____"@,
        (
            "Java Archive Runner"@,
            "Java Application Resource"@,
            "Java Application Runner"@,
            "None of the above"@,
        ),
        4,
        "Java"@,
    )
    &&& is_question(
        qs[24],
        "in java, which of the following is false ?"@,
        (
            "the rt.jar stands for the runtime jar"@,
            "it is an optional jar file"@,
            "it contains all the compiled class files"@,
            "all the classes available in rt.jar is known to the jvm"@,
        ),
        2,
        "java"@,
    )
    &&& is_question(
        qs[25],
        "In Java, what is the use of \\w in regex ?"@,
        (
            "Used for a whitespace character"@,
            "Used for a non-whitespace character"@,
            "Used for a word character"@,
            "Used for a non-word character"@,
        ),
        3,
        "java"@,
    )
    &&& is_question(
        qs[26],
        "In Java, which of the given methods are of Object class ?"@,
        (
            "notify(), wait( long msecs ), and synchronized()"@,
            "wait( long msecs ), interrupt(), and notifyAll()"@,
            "notify(), notifyAll(), and wait()"@,
            "sleep( long msecs ), wait(), and notify()"@,
        ),
        3,
        "java"@,
    )
    &&& is_question(
        qs[27],
        "In Java, which of the following is a valid syntax to synchronize the HashMap ?"@,
        (
            "Map m = hashMap.synchronizeMap();"@,
            "HashMap map = hashMap.synchronizeMap();"@,
            "Map m1 = Collections.synchronizedMap(hashMap);"@,
            "Map m2 = Collection.synchronizeMap(hashMap);"@,
        ),
        3,
        "java"@,
    )
    &&& is_question(
        qs[28],
        "In Java, what is meant by the classes and objects that dependents on each other ?"@,
        (
            "Tight Coupling"@,
            "Cohesion"@,
            "Loose Coupling"@,
            "None of the above"@,
        ),
        1,
        "java"@,
    )
    &&& is_question(
        qs[29],
        "In Javan how many threads can be executed at a time ?"@,
        (
            "Only one thread"@,
            "Multiple threads"@,
            "Only main (main() method) thread"@,
            "Two threads"@,
        ),
        2,
        "java"@,
    )
    &&& is_question(
        qs[30],
        "In Java, if three threads trying to share a single object at the same time, which condition will arise in this scenario ?"@,
        (
            "Time-Lapse"@,
            "Critical situation"@,
            "Race condition"@,
            "Recursion"@,
        ),
        3,
        "java"@,
    )
    &&& is_question(
        qs[31],
        "In Java, if a thread goes to sleep"@,
        (
            "It releases all the locks it has."@,
            "It does not release any locks."@,
            "It releases half of its locks."@,
            "It releases all of its lock except one."@,
        ),
        2,
        "java"@,
    )
    &&& is_question(
        qs[32],
        "In Java, which of the following modifiers can be used for a variable so that it can be accessed by any thread or a part of a program ?"@,
        (
            "global"@,
            "transient"@,
            "volatile"@,
            "default"@,
        ),
        3,
        "java"@,
    )
    &&& is_question(
        qs[33],
        "In Java, in character stream I/O, a single read/write operation performs _____"@,
        (
            "Two bytes read/write at a time."@,
            "Eight bytes read/write at a time."@,
            "One byte read/write at a time."@,
            "Five bytes read/ write at a time."@,
        ),
        1,
        "java"@,
    )
    &&& is_question(
        qs[34],
        "In Java, what is the default encoding for an OutputStreamWriter ?"@,
        (
            "UTF-8"@,
            "Default encoding of the host platform"@,
            "UTF-12"@,
            "None of the above"@,
        ),
        2,
        "java"@,
    )
}

/// The catalog of questions on Rust, in order.
pub open spec fn rust_catalog(qs: Seq<QuestionDto>) -> bool {
    &&& qs.len() == 1
    &&& is_question(
        qs[0],
        "What is a closure in Rust ?"@,
        (
            "A function that is declared in a scope and captures its environment"@,
            "An anonymous function that doesn't capture its environment"@,
            "A function declared in a scope but doesn't capture its environment"@,
            "An anonymous function that captures its environment"@,
        ),
        4,
        "Rust"@,
    )
}

/// The catalog of questions on Kotlin, in order.
pub open spec fn kotlin_catalog(qs: Seq<QuestionDto>) -> bool {
    &&& qs.len() == 40
    &&& is_question(
        qs[0],
        "What is Kotlin ?"@,
        (
            "A new version of Java"@,
            "A JavaScript framework"@,
            "A statically-typed programming language for the JVM, Android and browser"@,
            "A database management system"@,
        ),
        3,
        "Kotlin"@,
    )
    &&& is_question(
        qs[1],
        "Which platform does Kotlin primarily target ?"@,
        (
            "Python Bytecode"@,
            "JavaScript"@,
            "JVM Bytecode"@,
            "PHP"@,
        ),
        3,
        "Kotlin"@,
    )
    &&& is_question(
        qs[2],
        "Are semicolons (;) mandatory at the end of code statements in Kotlin ?"@,
        (
            "True"@,
            "False"@,
            ""@,
            ""@,
        ),
        2,
        "Kotlin"@,
    )
    &&& is_question(
        qs[3],
        "What paradigm(s) does the Kotlin programming language follow ?"@,
        (
            "Only Object-Oriented"@,
            "Procedural"@,
            "Only Functional"@,
            "Both Object-Oriented and Functional"@,
        ),
        4,
        "Kotlin"@,
    )
    &&& is_question(
        qs[4],
        "How do you declare a variable in Kotlin?"@,
        (
            "let myVariable = 10;"@,
            "let myVariable: Int = 10"@,
            "const myVariable = 10;"@,
            "var myVariable: Int = 10"@,
        ),
        4,
        "Kotlin"@,
    )
    &&& is_question(
        qs[5],
        "How do you define a variable in Kotlin that cannot be reassigned ?"@,
        (
            "var"@,
            "val"@,
            "const;"@,
            "final"@,
        ),
        2,
        "Kotlin"@,
    )
    &&& is_question(
        qs[6],
        "How do you declare a nullable variable in Kotlin ?"@,
        (
            "var name: String?"@,
            "var name: String"@,
            "var name: String = null"@,
            "String name = null"@,
        ),
        1,
        "Kotlin"@,
    )
    &&& is_question(
        qs[7],
        "What is the difference between val and var in Kotlin ?"@,
        (
            "They are identical and can be used interchangeably"@,
            "'val' declares mutable variables, and 'var' declares immutable ones"@,
            "'val' declares immutable variables, and 'var' declares mutable ones"@,
            "'val' is used for local variables, and 'var' is used for globak variables"@,
        ),
        3,
        "Kotlin"@,
    )
    &&& is_question(
        qs[8],
        "How do you define a function in Kotlin ?"@,
        (
            "fun myFunction() {}"@,
            "def myFunction() {}"@,
            "function myFunction() {}"@,
            "fun = myFunction() {}"@,
        ),
        1,
        "Kotlin"@,
    )
    &&& is_question(
        qs[9],
        "Why is the when expression used in Kotlin ?"@,
        (
            "To create a loop"@,
            "To define a switch-case statement"@,
            "To define a conditional statement"@,
            "To create a lambda function"@,
        ),
        2,
        "Kotlin"@,
    )
    &&& is_question(
        qs[10],
        "What does ?. operator do in Kotlin ?"@,
        (
            "Null-safe type casting"@,
            "Null-sage function calling"@,
            "Null-sage member access"@,
            "None of the above"@,
        ),
        3,
        "Kotlin"@,
    )
    &&& is_question(
        qs[11],
        "What is the default visibility modifiers in Kotlin if no modifier is specified ?"@,
        (
            "public"@,
            "private"@,
            "internal"@,
            "protected"@,
        ),
        1,
        "Kotlin"@,
    )
    &&& is_question(
        qs[12],
        "Which keyword is used to create a singleton in Kotlin ?"@,
        (
            "static"@,
            "singleton"@,
            "single"@,
            "object"@,
        ),
        4,
        "Kotlin"@,
    )
    &&& is_question(
        qs[13],
        "What is the main purpose of the let function in Kotlin ?"@,
        (
            "To facilitate null checks"@,
            "To execute a block of code and return a result"@,
            "To transform an object"@,
            "None of the above"@,
        ),
        3,
        "Kotlin"@,
    )
    &&& is_question(
        qs[14],
        "Which feature in Kotlin helps to prevent NullPointerExceptions ?"@,
        (
            "Safe call operator (?.)"@,
            "Non-null Assertion Operator (!!)"@,
            "Elvis operator (?:)"@,
            "Safe cast operator (as?)"@,
        ),
        1,
        "Kotlin"@,
    )
    &&& is_question(
        qs[15],
        "What is the purpose of the open modifier in Kotlin ?"@,
        (
            "It allows a class to be instantiated"@,
            "It makes a function available for overriding"@,
            "It enforces strict typing for variables"@,
            "It allows a function to be called only from within its own class"@,
        ),
        2,
        "Kotlin"@,
    )
    &&& is_question(
        qs[16],
        "How do you create a single-line comment in Kotlin ?"@,
        (
            "// This is a comment"@,
            "/* This is a comment */"@,
            "-- This is a comment"@,
            "# This is a comment"@,
        ),
        1,
        "Kotlin"@,
    )
    &&& is_question(
        qs[17],
        "How can we write a multi-line comment in Kotlin ?"@,
        (
            "// This is a comment"@,
            "/* This is a comment */"@,
            "-- This is a comment"@,
            "# This is a comment"@,
        ),
        2,
        "Kotlin"@,
    )
    &&& is_question(
        qs[18],
        "What is the role of the init block in Kotlin ?"@,
        (
            "To initialize the superclass"@,
            "To initialize an object after the constructor has been called"@,
            "To initialize static variables"@,
            "None of the above"@,
        ),
        2,
        "Kotlin"@,
    )
    &&& is_question(
        qs[19],
        "How do you call a function in Kotlin ?"@,
        (
            "functionName()"@,
            "call functionName"@,
            "Function -> functionName"@,
            "functionName:call"@,
        ),
        1,
        "Kotlin"@,
    )
    &&& is_question(
        qs[20],
        "Which Kotlin construct allows a block of code to be executed a specific number of times ?"@,
        (
            "for"@,
            "while"@,
            "repeat"@,
            "loop"@,
        ),
        3,
        "Kotlin"@,
    )
    &&& is_question(
        qs[21],
        "Which keyword are used to handle conditional statements in Kotlin ?"@,
        (
            "if"@,
            "when"@,
            "both a and b"@,
            "None of the above"@,
        ),
        3,
        "Kotlin"@,
    )
    &&& is_question(
        qs[22],
        "What is the correct way to define a primary constructor in Kotlin ?"@,
        (
            "constructor()"@,
            "class constructor()"@,
            "primary constructor()"@,
            "class Person()"@,
        ),
        4,
        "Kotlin"@,
    )
    &&& is_question(
        qs[23],
        "In Kotlin, what is the main purpose of the return keyword ?"@,
        (
            "To declare a function"@,
            "To create a loop"@,
            "To terminate a function and return a value"@,
            "To define a class"@,
        ),
        3,
        "Kotlin"@,
    )
    &&& is_question(
        qs[24],
        "What is the primary use of the 'with' function in Kotlin ?"@,
        (
            "To create an extension function"@,
            "To apply multiple transformations to a collection"@,
            "To establish a scope in which an object's properties and functions can be accessed directly without specifying the object's name"@,
            "To create an anonymous function"@,
        ),
        3,
        "Kotlin"@,
    )
    &&& is_question(
        qs[25],
        "What does the 'also' function do in Kotlin ?"@,
        (
            "It's a scoping function that also executes a block of code"@,
            "It runs a block of code and returns the object it was called on"@,
            "It runs a block of code and returns the result"@,
            "None of the above"@,
        ),
        2,
        "Kotlin"@,
    )
    &&& is_question(
        qs[26],
        "Which of these is not a loop structure in Kotlin ?"@,
        (
            "for loop"@,
            "while loop"@,
            "until loop"@,
            "do-while loop"@,
        ),
        3,
        "Kotlin"@,
    )
    &&& is_question(
        qs[27],
        "How do we throw an exception in Kotlin ?"@,
        (
            "throw Exception()"@,
            "raise Exception()"@,
            "Exception.throw()"@,
            "None of the above"@,
        ),
        1,
        "Kotlin"@,
    )
    &&& is_question(
        qs[28],
        "What methods can be used to achieve abstraction in Kotlin ?"@,
        (
            "Through abstract classes only ?"@,
            "Through interfaces only"@,
            "Through both abstract classes and interfaces"@,
            "None of the above"@,
        ),
        3,
        "Kotlin"@,
    )
    &&& is_question(
        qs[29],
        "How do you declare an array of integers in Kotlin ?"@,
        (
            "val numbers = arrayOf(1, 2, 3)"@,
            "val numbers = listOf(1, 2, 3)"@,
            "val numbers = [1, 2, 3]"@,
            "val numbers = Array(3) {0, 1, 2}"@,
        ),
        1,
        "Kotlin"@,
    )
    &&& is_question(
        qs[30],
        "Which of the following is not a basic type in Kotlin ?"@,
        (
            "Boolean"@,
            "String"@,
            "Float"@,
            "Char"@,
        ),
        2,
        "Kotlin"@,
    )
    &&& is_question(
        qs[31],
        "How do you declare a String in Kotlin ?"@,
        (
            "val str: String = \"Hello World\""@,
            "String str = \"Hello World\""@,
            "val str = String(\"Hello World\")"@,
            "String str = new String(\"Hello World\")"@,
        ),
        1,
        "Kotlin"@,
    )
    &&& is_question(
        qs[32],
        "In Kotlin, how do you compare two Strings for equality ?"@,
        (
            "str1==srt2"@,
            "str1.equals(str2)"@,
            "Both a and b"@,
            "str1.sameAs(str2)"@,
        ),
        3,
        "Kotlin"@,
    )
    &&& is_question(
        qs[33],
        "Which property can be used to find the length of a string ?"@,
        (
            "size"@,
            "length"@,
            "count"@,
            "charCount"@,
        ),
        2,
        "Kotlin"@,
    )
    &&& is_question(
        qs[34],
        "In Kotlin, which collection type has an order and can contain duplicate elements ?"@,
        (
            "Set"@,
            "List"@,
            "Map"@,
            "All of the above"@,
        ),
        2,
        "Kotlin"@,
    )
    &&& is_question(
        qs[35],
        "Which function is used to iterate over a collection in Kotlin ?"@,
        (
            "forEach()"@,
            "for()"@,
            "map()"@,
            "filter()"@,
        ),
        1,
        "Kotlin"@,
    )
    &&& is_question(
        qs[36],
        "Which of these functions can transform a list in Kotlin ?"@,
        (
            "map()"@,
            "filter()"@,
            "forEach()"@,
            "None of the above"@,
        ),
        1,
        "Kotlin"@,
    )
    &&& is_question(
        qs[37],
        "Which collection type ensures element uniqueness in Kotlin ?"@,
        (
            "List"@,
            "Set"@,
            "Map"@,
            "MutableList"@,
        ),
        2,
        "Kotlin"@,
    )
    &&& is_question(
        qs[38],
        "How do you create an empty list in Kotlin ?"@,
        (
            "emptyList()"@,
            "listOf()"@,
            "list()"@,
            "mutableListOf()"@,
        ),
        1,
        "Kotlin"@,
    )
    &&& is_question(
        qs[39],
        "What does the mapOf() function do in Kotlin ?"@,
        (
            "It creates a new List"@,
            "It creates a new Set"@,
            "It creates a new Map"@,
            "It creates a new Queue"@,
        ),
        3,
        "Kotlin"@,
    )
}

} // verus!
